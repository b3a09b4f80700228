use vstd::prelude::*;

verus! {

use crate::chain::ChainError;
use crate::chain::PresentationChain;
use crate::chain::SurfaceCapabilities;
use crate::chain::FrameTarget;
use crate::chain::build_frame_targets;
use crate::chain::create_chain;
use crate::chain::created_chain;
use crate::chain::targets_match;
use crate::geometry::TriangleAngles;
use crate::geometry::triangle_at;

/// The marker for GPU work of a previous frame that may still be running.
/// `Complete` is the trivially finished marker the loop starts with and
/// falls back to when a frame is dropped; `Pending` names the one frame
/// whose work has been submitted but is not yet known to be done.
#[derive(Clone, Copy, Debug, PartialEq, Eq, Structural)]
pub enum InFlightMarker {
    Complete,
    Pending { frame: u64 },
}

/// The events the host window system delivers to the loop.
#[derive(Clone, Copy, Debug, PartialEq, Eq, Structural)]
pub enum HostEvent {
    CloseRequested,
    Resized,
    RedrawReady,
}

/// What the driver of the loop must do after handing an event in.
#[derive(Clone, Copy, Debug, PartialEq, Eq, Structural)]
pub enum EventAction {
    StopLoop,
    KeepWaiting,
    RunRedraw,
}

/// Whether a redraw tick may go on after the chain check.
#[derive(Clone, Copy, Debug, PartialEq, Eq, Structural)]
pub enum RedrawGate {
    Proceed,
    SkipUnsupported,
}

/// What acquiring the next presentable image came back with.
#[derive(Clone, Copy, Debug, PartialEq, Eq, Structural)]
pub enum AcquireOutcome {
    Acquired { image_index: u32, suboptimal: bool },
    OutOfDate,
    OtherError,
}

/// The loop's decision on an acquisition outcome.
#[derive(Clone, Copy, Debug, PartialEq, Eq, Structural)]
pub enum AcquireStep {
    Draw { image_index: u32 },
    AbortTick,
    Fatal,
}

/// What flushing a submitted frame came back with.
#[derive(Clone, Copy, Debug, PartialEq, Eq, Structural)]
pub enum FlushOutcome {
    Success,
    ChainOutOfDate,
    OtherError,
}

/// The fixed clear colour of the demo: opaque blue.
#[derive(Clone, Copy, Debug, PartialEq, Eq, Structural)]
pub enum ClearColor {
    OpaqueBlue,
}

/// Everything one frame's command sequence does, decided before any GPU
/// call: which image it draws into, the clear colour, the triangle, the
/// single three-vertex one-instance draw, and the marker of the previous
/// frame that the submission must wait on (joined with this tick's
/// acquisition signal).
#[derive(Clone, Copy, Debug, PartialEq, Eq, Structural)]
pub struct FramePlan {
    pub image_index: u32,
    pub clear_color: ClearColor,
    pub triangle: TriangleAngles,
    pub vertex_count: u32,
    pub instance_count: u32,
    pub waits_on: InFlightMarker,
    pub frame_id: u64,
}

/// The whole mutable state of the render loop: the flags the window
/// events set, the current chain generation with its frame targets, the
/// single in-flight marker, and the count of frames submitted so far
/// (which names the markers).
pub struct LoopState {
    pub exit_requested: bool,
    pub recreate_chain: bool,
    pub chain: PresentationChain,
    pub targets: Vec<FrameTarget>,
    pub in_flight: InFlightMarker,
    pub frames_submitted: u64,
}

impl LoopState {
    /// Well-formedness the loop maintains: the chain is valid, the
    /// targets are exactly the current chain's targets, and the pending
    /// marker, if any, names the most recently submitted frame.
    pub open spec fn wf(self) -> bool {
        &&& self.chain.wf()
        &&& targets_match(self.targets@, self.chain)
        &&& match self.in_flight {
            InFlightMarker::Complete => true,
            InFlightMarker::Pending { frame } => self.frames_submitted > 0 && frame
                == self.frames_submitted - 1,
        }
    }

    /// How many uncompleted in-flight markers the state holds.
    pub open spec fn pending_frame_count(self) -> nat {
        match self.in_flight {
            InFlightMarker::Complete => 0,
            InFlightMarker::Pending { .. } => 1,
        }
    }
}

/// Start the loop over a freshly created chain: no flags set, the
/// in-flight marker trivially complete, no frame submitted yet.
pub fn new_loop_state(chain: PresentationChain) -> (s: LoopState)
    requires
        chain.wf(),
    ensures
        s.wf(),
        !s.exit_requested,
        !s.recreate_chain,
        s.chain == chain,
        targets_match(s.targets@, chain),
        s.in_flight == InFlightMarker::Complete,
        s.frames_submitted == 0,
{
    let targets = build_frame_targets(&chain);
    LoopState {
        exit_requested: false,
        recreate_chain: false,
        chain,
        targets,
        in_flight: InFlightMarker::Complete,
        frames_submitted: 0,
    }
}

/// What `handle_host_event` does to the state for each event: a close
/// request sets the exit flag and stops the loop, a resize flags the
/// chain for recreation, and a redraw opportunity alone runs the render
/// state machine.
pub open spec fn handle_event_post(
    s0: LoopState,
    s1: LoopState,
    ev: HostEvent,
    r: EventAction,
) -> bool {
    &&& s1.chain == s0.chain
    &&& s1.targets == s0.targets
    &&& s1.in_flight == s0.in_flight
    &&& s1.frames_submitted == s0.frames_submitted
    &&& match ev {
        HostEvent::CloseRequested => r == EventAction::StopLoop && s1.exit_requested
            && s1.recreate_chain == s0.recreate_chain,
        HostEvent::Resized => r == EventAction::KeepWaiting && s1.recreate_chain
            && s1.exit_requested == s0.exit_requested,
        HostEvent::RedrawReady => r == EventAction::RunRedraw && s1.recreate_chain
            == s0.recreate_chain && s1.exit_requested == s0.exit_requested,
    }
}

/// Dispatch one host event.  Only a redraw opportunity advances the
/// render state machine; close and resize merely set the loop flags that
/// the next redraw consumes.
pub fn handle_host_event(state: &mut LoopState, ev: HostEvent) -> (r: EventAction)
    requires
        old(state).wf(),
    ensures
        final(state).wf(),
        handle_event_post(*old(state), *final(state), ev, r),
{
    match ev {
        HostEvent::CloseRequested => {
            state.exit_requested = true;
            EventAction::StopLoop
        },
        HostEvent::Resized => {
            state.recreate_chain = true;
            EventAction::KeepWaiting
        },
        HostEvent::RedrawReady => EventAction::RunRedraw,
    }
}

/// What `begin_redraw` does: nothing when no recreation is pending;
/// otherwise it recreates the chain and its targets at the requested
/// dimensions and clears the flag, or — when the surface rejects those
/// dimensions — leaves everything as it was, the flag included, and gates
/// the tick off so it is retried at the next redraw opportunity.
pub open spec fn begin_redraw_post(
    s0: LoopState,
    s1: LoopState,
    caps: SurfaceCapabilities,
    width: u32,
    height: u32,
    r: RedrawGate,
) -> bool {
    &&& s1.exit_requested == s0.exit_requested
    &&& s1.in_flight == s0.in_flight
    &&& s1.frames_submitted == s0.frames_submitted
    &&& if !s0.recreate_chain {
        r == RedrawGate::Proceed && s1.chain == s0.chain && s1.targets == s0.targets
            && !s1.recreate_chain
    } else if caps.supports_dimensions(width, height) {
        r == RedrawGate::Proceed && s1.chain == created_chain(caps, width, height)
            && targets_match(s1.targets@, s1.chain) && !s1.recreate_chain
    } else {
        r == RedrawGate::SkipUnsupported && s1.chain == s0.chain && s1.targets == s0.targets
            && s1.recreate_chain
    }
}

/// First step of a redraw tick, after the finished resources of the
/// previous frame have been reclaimed: if a resize flagged the chain,
/// recreate it at the window's current pixel dimensions and rebuild the
/// frame targets.  When the surface rejects the dimensions, the tick is
/// skipped entirely — no draw, no submit, no present — and the flag stays
/// set so the next tick retries.
pub fn begin_redraw(
    state: &mut LoopState,
    caps: &SurfaceCapabilities,
    width: u32,
    height: u32,
) -> (r: RedrawGate)
    requires
        old(state).wf(),
        caps.wf(),
    ensures
        final(state).wf(),
        begin_redraw_post(*old(state), *final(state), *caps, width, height, r),
{
    if state.recreate_chain {
        match create_chain(caps, width, height) {
            Ok(new_chain) => {
                state.chain = new_chain;
                state.targets = build_frame_targets(&new_chain);
                state.recreate_chain = false;
                RedrawGate::Proceed
            },
            Err(ChainError::UnsupportedDimensions) => RedrawGate::SkipUnsupported,
        }
    } else {
        RedrawGate::Proceed
    }
}

/// What `handle_acquire` does with each acquisition outcome: an acquired
/// image leads to a draw on that image (a sub-optimal image still draws,
/// but flags recreation for the next tick); an out-of-date chain aborts
/// the tick and flags recreation; any other error is fatal.
pub open spec fn acquire_post(
    s0: LoopState,
    s1: LoopState,
    outcome: AcquireOutcome,
    r: AcquireStep,
) -> bool {
    &&& s1.exit_requested == s0.exit_requested
    &&& s1.chain == s0.chain
    &&& s1.targets == s0.targets
    &&& s1.in_flight == s0.in_flight
    &&& s1.frames_submitted == s0.frames_submitted
    &&& match outcome {
        AcquireOutcome::Acquired { image_index, suboptimal } => r == (AcquireStep::Draw {
            image_index,
        }) && s1.recreate_chain == (s0.recreate_chain || suboptimal),
        AcquireOutcome::OutOfDate => r == AcquireStep::AbortTick && s1.recreate_chain,
        AcquireOutcome::OtherError => r == AcquireStep::Fatal && s1.recreate_chain
            == s0.recreate_chain,
    }
}

/// Decide what to do with the outcome of acquiring the next presentable
/// image.
pub fn handle_acquire(state: &mut LoopState, outcome: AcquireOutcome) -> (r: AcquireStep)
    requires
        old(state).wf(),
    ensures
        final(state).wf(),
        acquire_post(*old(state), *final(state), outcome, r),
{
    match outcome {
        AcquireOutcome::Acquired { image_index, suboptimal } => {
            if suboptimal {
                state.recreate_chain = true;
            }
            AcquireStep::Draw { image_index }
        },
        AcquireOutcome::OutOfDate => {
            state.recreate_chain = true;
            AcquireStep::AbortTick
        },
        AcquireOutcome::OtherError => AcquireStep::Fatal,
    }
}

/// What `plan_frame` produces and does: a plan that clears the acquired
/// image to opaque blue and draws the triangle of the given instant with
/// one three-vertex draw call, sequenced after the previous frame's
/// marker; the state then holds the new frame's marker as its single
/// in-flight marker.
pub open spec fn plan_frame_post(
    s0: LoopState,
    s1: LoopState,
    image_index: u32,
    elapsed_micros: u64,
    p: FramePlan,
) -> bool {
    &&& p.image_index == image_index
    &&& p.clear_color == ClearColor::OpaqueBlue
    &&& p.triangle.matches_time(elapsed_micros as nat)
    &&& p.triangle.wf()
    &&& p.vertex_count == 3
    &&& p.instance_count == 1
    &&& p.waits_on == s0.in_flight
    &&& p.frame_id == s0.frames_submitted
    &&& s1.in_flight == (InFlightMarker::Pending { frame: p.frame_id })
    &&& s1.frames_submitted == s0.frames_submitted + 1
    &&& s1.exit_requested == s0.exit_requested
    &&& s1.recreate_chain == s0.recreate_chain
    &&& s1.chain == s0.chain
    &&& s1.targets == s0.targets
}

/// Plan this tick's frame: compute the triangle from the wall-clock
/// microseconds, fix the clear colour and the single draw call, and chain
/// the submission after the previous frame's in-flight marker, which the
/// new frame's marker replaces.
pub fn plan_frame(state: &mut LoopState, image_index: u32, elapsed_micros: u64) -> (p: FramePlan)
    requires
        old(state).wf(),
        image_index < old(state).chain.image_count,
        old(state).frames_submitted < u64::MAX,
    ensures
        final(state).wf(),
        plan_frame_post(*old(state), *final(state), image_index, elapsed_micros, p),
{
    let triangle = triangle_at(elapsed_micros);
    let frame_id = state.frames_submitted;
    let plan = FramePlan {
        image_index,
        clear_color: ClearColor::OpaqueBlue,
        triangle,
        vertex_count: 3,
        instance_count: 1,
        waits_on: state.in_flight,
        frame_id,
    };
    state.in_flight = InFlightMarker::Pending { frame: frame_id };
    state.frames_submitted = frame_id + 1;
    plan
}

/// What `finish_frame` does with each flush outcome: on success the
/// submitted frame's marker stays in flight; an out-of-date chain resets
/// the marker to the trivially complete one and flags recreation; any
/// other flush error drops the frame the same way but is merely logged by
/// the driver, with no flag set.
pub open spec fn finish_frame_post(
    s0: LoopState,
    s1: LoopState,
    frame_id: u64,
    outcome: FlushOutcome,
) -> bool {
    &&& s1.exit_requested == s0.exit_requested
    &&& s1.chain == s0.chain
    &&& s1.targets == s0.targets
    &&& s1.frames_submitted == s0.frames_submitted
    &&& match outcome {
        FlushOutcome::Success => s1.in_flight == (InFlightMarker::Pending { frame: frame_id })
            && s1.recreate_chain == s0.recreate_chain,
        FlushOutcome::ChainOutOfDate => s1.in_flight == InFlightMarker::Complete
            && s1.recreate_chain,
        FlushOutcome::OtherError => s1.in_flight == InFlightMarker::Complete && s1.recreate_chain
            == s0.recreate_chain,
    }
}

/// Resolve the submitted frame against the outcome of its fence-and-flush
/// request.
pub fn finish_frame(state: &mut LoopState, frame_id: u64, outcome: FlushOutcome)
    requires
        old(state).wf(),
        old(state).in_flight == (InFlightMarker::Pending { frame: frame_id }),
    ensures
        final(state).wf(),
        finish_frame_post(*old(state), *final(state), frame_id, outcome),
{
    match outcome {
        FlushOutcome::Success => {
        },
        FlushOutcome::ChainOutOfDate => {
            state.recreate_chain = true;
            state.in_flight = InFlightMarker::Complete;
        },
        FlushOutcome::OtherError => {
            state.in_flight = InFlightMarker::Complete;
        },
    }
}

/// In-flight bound: the loop state holds at most one uncompleted
/// in-flight marker at any point, and a new frame is always sequenced
/// after the marker the state held when the frame was planned — the plan
/// records that marker, and the state then holds the new frame's marker
/// alone.
pub proof fn lemma_in_flight_bound(
    s0: LoopState,
    s1: LoopState,
    image_index: u32,
    elapsed_micros: u64,
    p: FramePlan,
)
    requires
        plan_frame_post(s0, s1, image_index, elapsed_micros, p),
    ensures
        s0.pending_frame_count() <= 1,
        s1.pending_frame_count() <= 1,
        p.waits_on == s0.in_flight,
        s1.in_flight == (InFlightMarker::Pending { frame: p.frame_id }),
{
}

/// One full redraw tick that reaches a draw: across chain check,
/// acquisition, frame planning and flush, the state stays well formed and
/// never holds more than one uncompleted marker, the submitted frame
/// waits on exactly the marker held when the tick began, and precisely
/// one frame is submitted.
pub proof fn lemma_redraw_tick(
    s0: LoopState,
    s1: LoopState,
    s2: LoopState,
    s3: LoopState,
    s4: LoopState,
    caps: SurfaceCapabilities,
    width: u32,
    height: u32,
    image_index: u32,
    suboptimal: bool,
    elapsed_micros: u64,
    p: FramePlan,
    flush: FlushOutcome,
)
    requires
        s0.wf(),
        caps.wf(),
        begin_redraw_post(s0, s1, caps, width, height, RedrawGate::Proceed),
        acquire_post(
            s1,
            s2,
            AcquireOutcome::Acquired { image_index, suboptimal },
            AcquireStep::Draw { image_index },
        ),
        plan_frame_post(s2, s3, image_index, elapsed_micros, p),
        finish_frame_post(s3, s4, p.frame_id, flush),
    ensures
        s1.wf() && s2.wf() && s3.wf() && s4.wf(),
        s1.pending_frame_count() <= 1 && s2.pending_frame_count() <= 1
            && s3.pending_frame_count() <= 1 && s4.pending_frame_count() <= 1,
        p.waits_on == s0.in_flight,
        s4.frames_submitted == s0.frames_submitted + 1,
        p.triangle.matches_time(elapsed_micros as nat),
{
}

/// Unsupported-dimension skip: while recreation is pending and the
/// surface rejects the requested dimensions, the tick is gated off with
/// nothing drawn or submitted and the state untouched, the flag stays
/// set, and a following tick at supported dimensions recreates the chain.
pub proof fn lemma_unsupported_dimensions_skip(
    s0: LoopState,
    s1: LoopState,
    s2: LoopState,
    caps1: SurfaceCapabilities,
    width1: u32,
    height1: u32,
    r1: RedrawGate,
    caps2: SurfaceCapabilities,
    width2: u32,
    height2: u32,
    r2: RedrawGate,
)
    requires
        s0.recreate_chain,
        !caps1.supports_dimensions(width1, height1),
        begin_redraw_post(s0, s1, caps1, width1, height1, r1),
        caps2.supports_dimensions(width2, height2),
        begin_redraw_post(s1, s2, caps2, width2, height2, r2),
    ensures
        r1 == RedrawGate::SkipUnsupported,
        s1.recreate_chain,
        s1.chain == s0.chain,
        s1.in_flight == s0.in_flight,
        s1.frames_submitted == s0.frames_submitted,
        r2 == RedrawGate::Proceed,
        s2.chain == created_chain(caps2, width2, height2),
        !s2.recreate_chain,
{
}

} // verus!
