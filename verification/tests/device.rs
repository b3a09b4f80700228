use rotating_triangle::device::{
    first_supported_option, pick_queue_family, plan_device_setup, InitError, QueueFamily,
};

fn family(graphics: bool, present: bool) -> QueueFamily {
    QueueFamily { supports_graphics: graphics, supports_present: present }
}

#[test]
fn picks_first_family_with_graphics_and_present() {
    let families = vec![
        family(true, false),
        family(false, true),
        family(true, true),
        family(true, true),
    ];
    assert_eq!(pick_queue_family(&families), Some(2));
}

#[test]
fn no_family_without_both_capabilities() {
    assert_eq!(pick_queue_family(&Vec::new()), None);
    let families = vec![family(true, false), family(false, true)];
    assert_eq!(pick_queue_family(&families), None);
}

#[test]
fn first_supported_takes_the_head() {
    assert_eq!(first_supported_option(&vec![7, 9, 11]), Some(7));
    assert_eq!(first_supported_option(&Vec::new()), None);
}

#[test]
fn setup_plan_makes_naive_first_found_choices() {
    let families = vec![family(true, false), family(true, true)];
    let formats = vec![44, 50];
    let alpha_modes = vec![1, 8];
    let sel = plan_device_setup(&families, &formats, &alpha_modes).unwrap();
    assert_eq!(sel.queue_family, 1);
    assert_eq!(sel.format, 44);
    assert_eq!(sel.alpha_mode, 1);
}

#[test]
fn setup_fails_without_suitable_family() {
    let families = vec![family(true, false)];
    assert_eq!(
        plan_device_setup(&families, &vec![44], &vec![1]),
        Err(InitError::NoSuitableQueueFamily)
    );
}

#[test]
fn setup_fails_without_format() {
    let families = vec![family(true, true)];
    assert_eq!(
        plan_device_setup(&families, &Vec::new(), &vec![1]),
        Err(InitError::NoSupportedFormat)
    );
}

#[test]
fn setup_fails_without_alpha_mode() {
    let families = vec![family(true, true)];
    assert_eq!(
        plan_device_setup(&families, &vec![44], &Vec::new()),
        Err(InitError::NoSupportedAlphaMode)
    );
}
