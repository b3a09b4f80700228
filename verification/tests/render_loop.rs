use rotating_triangle::chain::{create_chain, SurfaceCapabilities};
use rotating_triangle::geometry::triangle_at;
use rotating_triangle::render_loop::{
    begin_redraw, finish_frame, handle_acquire, handle_host_event, new_loop_state, plan_frame,
    AcquireOutcome, AcquireStep, ClearColor, EventAction, FlushOutcome, HostEvent, InFlightMarker,
    LoopState, RedrawGate,
};

fn caps(min_w: u32, max_w: u32, min_h: u32, max_h: u32) -> SurfaceCapabilities {
    SurfaceCapabilities {
        min_image_count: 2,
        format: 44,
        alpha_mode: 1,
        min_width: min_w,
        max_width: max_w,
        min_height: min_h,
        max_height: max_h,
    }
}

fn fresh_state() -> LoopState {
    let c = caps(1, 4096, 1, 4096);
    let chain = create_chain(&c, 800, 600).unwrap();
    new_loop_state(chain)
}

fn pending_markers(state: &LoopState) -> usize {
    match state.in_flight {
        InFlightMarker::Complete => 0,
        InFlightMarker::Pending { .. } => 1,
    }
}

#[test]
fn close_request_stops_the_loop() {
    let mut state = fresh_state();
    let action = handle_host_event(&mut state, HostEvent::CloseRequested);
    assert_eq!(action, EventAction::StopLoop);
    assert!(state.exit_requested);
    assert!(!state.recreate_chain);
}

#[test]
fn resize_flags_chain_recreation() {
    let mut state = fresh_state();
    let action = handle_host_event(&mut state, HostEvent::Resized);
    assert_eq!(action, EventAction::KeepWaiting);
    assert!(state.recreate_chain);
    assert!(!state.exit_requested);
    let action = handle_host_event(&mut state, HostEvent::RedrawReady);
    assert_eq!(action, EventAction::RunRedraw);
}

#[test]
fn one_full_tick() {
    let c = caps(1, 4096, 1, 4096);
    let mut state = fresh_state();

    let gate = begin_redraw(&mut state, &c, 800, 600);
    assert_eq!(gate, RedrawGate::Proceed);

    let step = handle_acquire(
        &mut state,
        AcquireOutcome::Acquired { image_index: 0, suboptimal: false },
    );
    assert_eq!(step, AcquireStep::Draw { image_index: 0 });
    assert!(!state.recreate_chain);

    let plan = plan_frame(&mut state, 0, 2_500_000);
    assert_eq!(plan.image_index, 0);
    assert_eq!(plan.clear_color, ClearColor::OpaqueBlue);
    assert_eq!(plan.triangle, triangle_at(2_500_000));
    assert_eq!(plan.vertex_count, 3);
    assert_eq!(plan.instance_count, 1);
    assert_eq!(plan.waits_on, InFlightMarker::Complete);
    assert_eq!(plan.frame_id, 0);
    assert_eq!(state.frames_submitted, 1);

    finish_frame(&mut state, plan.frame_id, FlushOutcome::Success);
    assert_eq!(state.in_flight, InFlightMarker::Pending { frame: 0 });
}

#[test]
fn suboptimal_image_still_draws_but_flags_recreation() {
    let mut state = fresh_state();
    let step = handle_acquire(
        &mut state,
        AcquireOutcome::Acquired { image_index: 1, suboptimal: true },
    );
    assert_eq!(step, AcquireStep::Draw { image_index: 1 });
    assert!(state.recreate_chain);
}

#[test]
fn out_of_date_chain_aborts_tick() {
    let mut state = fresh_state();
    let step = handle_acquire(&mut state, AcquireOutcome::OutOfDate);
    assert_eq!(step, AcquireStep::AbortTick);
    assert!(state.recreate_chain);
    assert_eq!(state.frames_submitted, 0);
}

#[test]
fn other_acquire_error_is_fatal() {
    let mut state = fresh_state();
    let step = handle_acquire(&mut state, AcquireOutcome::OtherError);
    assert_eq!(step, AcquireStep::Fatal);
}

#[test]
fn flush_out_of_date_drops_frame_and_flags() {
    let mut state = fresh_state();
    let plan = plan_frame(&mut state, 0, 0);
    finish_frame(&mut state, plan.frame_id, FlushOutcome::ChainOutOfDate);
    assert_eq!(state.in_flight, InFlightMarker::Complete);
    assert!(state.recreate_chain);
}

#[test]
fn other_flush_error_drops_frame_without_flag() {
    let mut state = fresh_state();
    let plan = plan_frame(&mut state, 0, 0);
    finish_frame(&mut state, plan.frame_id, FlushOutcome::OtherError);
    assert_eq!(state.in_flight, InFlightMarker::Complete);
    assert!(!state.recreate_chain);
}

#[test]
fn unsupported_dimensions_skip_tick_then_retry() {
    let mut state = fresh_state();
    handle_host_event(&mut state, HostEvent::Resized);
    assert!(state.recreate_chain);
    let chain_before = state.chain;

    // The surface rejects the requested dimensions: nothing is drawn,
    // nothing recreated, and the flag stays set for the next tick.
    let rejecting = caps(100, 200, 100, 200);
    let gate = begin_redraw(&mut state, &rejecting, 800, 600);
    assert_eq!(gate, RedrawGate::SkipUnsupported);
    assert_eq!(state.chain, chain_before);
    assert!(state.recreate_chain);
    assert_eq!(state.frames_submitted, 0);
    assert_eq!(state.in_flight, InFlightMarker::Complete);

    // Next tick, with supported dimensions: the chain is recreated and
    // the flag cleared.
    let accepting = caps(1, 4096, 1, 4096);
    let gate = begin_redraw(&mut state, &accepting, 1024, 768);
    assert_eq!(gate, RedrawGate::Proceed);
    assert!(!state.recreate_chain);
    assert_eq!(state.chain.width, 1024);
    assert_eq!(state.chain.height, 768);
    assert_eq!(state.targets.len(), state.chain.image_count as usize);
}

#[test]
fn at_most_one_marker_in_flight() {
    let c = caps(1, 4096, 1, 4096);
    let mut state = fresh_state();
    let outcomes = [
        FlushOutcome::Success,
        FlushOutcome::ChainOutOfDate,
        FlushOutcome::Success,
        FlushOutcome::OtherError,
        FlushOutcome::Success,
    ];
    assert_eq!(pending_markers(&state), 0);
    for (i, outcome) in outcomes.iter().enumerate() {
        let gate = begin_redraw(&mut state, &c, 800, 600);
        assert_eq!(gate, RedrawGate::Proceed);
        assert!(pending_markers(&state) <= 1);
        let step = handle_acquire(
            &mut state,
            AcquireOutcome::Acquired { image_index: 0, suboptimal: false },
        );
        assert_eq!(step, AcquireStep::Draw { image_index: 0 });
        let before = state.in_flight;
        let plan = plan_frame(&mut state, 0, i as u64 * 16_667);
        // The new frame is chained after the previous frame's marker,
        // which it replaces: never two uncompleted markers at once.
        assert_eq!(plan.waits_on, before);
        assert_eq!(state.in_flight, InFlightMarker::Pending { frame: plan.frame_id });
        assert!(pending_markers(&state) <= 1);
        finish_frame(&mut state, plan.frame_id, *outcome);
        assert!(pending_markers(&state) <= 1);
    }
    assert_eq!(state.frames_submitted, outcomes.len() as u64);
}
