use vstd::prelude::*;

verus! {

/// What matters about one queue family of a physical device: whether it
/// can run graphics work, and whether it can present to the demo's
/// surface.
#[derive(Clone, Copy, Debug, PartialEq, Eq, Structural)]
pub struct QueueFamily {
    pub supports_graphics: bool,
    pub supports_present: bool,
}

/// A family the demo can use must support both graphics and presentation.
pub open spec fn family_suitable(f: QueueFamily) -> bool {
    f.supports_graphics && f.supports_present
}

/// Why device setup cannot proceed.  Each of these is fatal: the program
/// reports it and terminates.
#[derive(Clone, Copy, Debug, PartialEq, Eq, Structural)]
pub enum InitError {
    NoSuitableQueueFamily,
    NoSupportedFormat,
    NoSupportedAlphaMode,
}

/// The choices device setup makes: which queue family to request the
/// single graphics queue from, and which pixel format and compositing
/// mode to create the chain with.
#[derive(Clone, Copy, Debug, PartialEq, Eq, Structural)]
pub struct InitSelections {
    pub queue_family: usize,
    pub format: u32,
    pub alpha_mode: u32,
}

/// Pick the first queue family that supports both graphics and
/// presentation — the demo's deliberately naive first-found policy.
pub fn pick_queue_family(families: &Vec<QueueFamily>) -> (r: Option<usize>)
    ensures
        match r {
            Some(i) => i < families@.len() && family_suitable(families@[i as int]) && (forall|j: int|
                0 <= j < i ==> !family_suitable(families@[j])),
            None => forall|j: int| 0 <= j < families@.len() ==> !family_suitable(families@[j]),
        },
{
    let mut i: usize = 0;
    while i < families.len()
        invariant
            i <= families@.len(),
            forall|j: int| 0 <= j < i ==> !family_suitable(families@[j]),
        decreases families@.len() - i,
    {
        let f = families[i];
        if f.supports_graphics && f.supports_present {
            return Some(i);
        }
        i = i + 1;
    }
    None
}

/// First supported option of a capability list, the demo's policy for
/// both pixel formats and compositing modes: no preference ordering, just
/// whatever the surface lists first.
pub fn first_supported_option(options: &Vec<u32>) -> (r: Option<u32>)
    ensures
        match r {
            Some(v) => options@.len() > 0 && v == options@[0],
            None => options@.len() == 0,
        },
{
    if options.len() > 0 {
        Some(options[0])
    } else {
        None
    }
}

/// Everything `plan_device_setup` promises: success exactly when a
/// suitable queue family exists and the surface offers at least one
/// format and one compositing mode, with the first-found choice of each;
/// otherwise the first failure in setup order.
pub open spec fn device_setup_post(
    families: Seq<QueueFamily>,
    formats: Seq<u32>,
    alpha_modes: Seq<u32>,
    r: Result<InitSelections, InitError>,
) -> bool {
    match r {
        Ok(sel) => {
            &&& sel.queue_family < families.len()
            &&& family_suitable(families[sel.queue_family as int])
            &&& forall|j: int| 0 <= j < sel.queue_family ==> !family_suitable(families[j])
            &&& formats.len() > 0 && sel.format == formats[0]
            &&& alpha_modes.len() > 0 && sel.alpha_mode == alpha_modes[0]
        },
        Err(InitError::NoSuitableQueueFamily) => forall|j: int|
            0 <= j < families.len() ==> !family_suitable(families[j]),
        Err(InitError::NoSupportedFormat) => (exists|j: int|
            0 <= j < families.len() && family_suitable(families[j])) && formats.len() == 0,
        Err(InitError::NoSupportedAlphaMode) => (exists|j: int|
            0 <= j < families.len() && family_suitable(families[j])) && formats.len() > 0
            && alpha_modes.len() == 0,
    }
}

/// Make every decision of device setup that is a choice rather than a
/// platform call: the queue family for the single graphics queue, the
/// pixel format, and the compositing mode.  Fails, fatally for the
/// program, exactly when one of the three has no candidate.
pub fn plan_device_setup(
    families: &Vec<QueueFamily>,
    formats: &Vec<u32>,
    alpha_modes: &Vec<u32>,
) -> (r: Result<InitSelections, InitError>)
    ensures
        device_setup_post(families@, formats@, alpha_modes@, r),
{
    let queue_family = match pick_queue_family(families) {
        Some(i) => i,
        None => {
            return Err(InitError::NoSuitableQueueFamily);
        },
    };
    let format = match first_supported_option(formats) {
        Some(f) => f,
        None => {
            return Err(InitError::NoSupportedFormat);
        },
    };
    let alpha_mode = match first_supported_option(alpha_modes) {
        Some(a) => a,
        None => {
            return Err(InitError::NoSupportedAlphaMode);
        },
    };
    Ok(InitSelections { queue_family, format, alpha_mode })
}

} // verus!
