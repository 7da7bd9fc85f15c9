//! The event loop, one turn at a time: what each event of the window or of
//! the device leads to, and how long to wait between two frames.

use vstd::prelude::*;
use crate::graphics::{ComputePass, DrawPass, FramePhase, WgpuContext};

verus! {

/// Shortest time between two frames, in microseconds: a sixtieth of a second.
pub const FRAME_INTERVAL_MICROS: u64 = 16666;

/// The keys the loop tells apart.
#[derive(Debug, Clone, Copy, PartialEq, Eq, Structural)]
pub enum Key {
    /// Asks for a redraw.
    S,
    /// Ends the session.
    Escape,
    /// Any other key.
    Other,
}

/// Why no image of the surface could be had.
#[derive(Debug, Clone, Copy, PartialEq, Eq, Structural)]
pub enum SurfaceFault {
    /// The image did not come in time.
    Timeout,
    /// The surface has changed and must be configured again.
    Outdated,
    /// The surface was lost and must be configured again.
    Lost,
    /// No memory is left.
    OutOfMemory,
}

/// An error that ends the session with a diagnostic.
#[derive(Debug, Clone, Copy, PartialEq, Eq, Structural)]
pub enum FatalError {
    /// The window was resized; the grid is laid out once and for all.
    ResizeUnsupported,
    /// The surface gave no image, even at the second try.
    SurfaceUnavailable,
}

/// What the loop is told.
#[derive(Debug, Clone, Copy, PartialEq, Eq, Structural)]
pub enum LoopEvent {
    /// The user asked to close the window.
    CloseRequested,
    /// A key went down.
    KeyPressed(Key),
    /// The window changed size.
    Resized,
    /// The window wants its content drawn.
    RedrawRequested,
    /// The compute pass was handed to the device.
    ComputeSubmitted,
    /// An image of the surface was had.
    SurfaceAcquired,
    /// No image of the surface was had.
    SurfaceFailed(SurfaceFault),
    /// The draw pass was handed to the device.
    DrawSubmitted,
    /// The image was handed back for display.
    FramePresented,
}

/// What the loop asks for in return.
#[derive(Debug, Clone, Copy, PartialEq, Eq, Structural)]
pub enum LoopAction {
    /// Nothing to do.
    Nothing,
    /// Leave the loop.
    Exit,
    /// Report the error and end the session.
    Fail(FatalError),
    /// Ask the window for a redraw.
    RequestRedraw,
    /// Hand this compute pass to the device.
    Compute(ComputePass),
    /// Ask the surface for an image, after configuring it again if
    /// `reconfigure` is set.
    Acquire { reconfigure: bool },
    /// Hand this draw pass to the device, onto the image that was had.
    Draw(DrawPass),
    /// Hand the image back for display.
    Present,
}

impl FatalError {
    /// The diagnostic for this error.
    pub open spec fn diagnostic(self) -> Seq<char> {
        match self {
            FatalError::ResizeUnsupported =>
                "The window was resized, which the grid cannot follow"@,
            FatalError::SurfaceUnavailable => "Failed to acquire next surface texture!"@,
        }
    }

    /// What to tell the user before the program ends.
    pub fn message(&self) -> (text: &'static str)
        ensures
            text@ == self.diagnostic(),
    {
        match self {
            FatalError::ResizeUnsupported => "The window was resized, which the grid cannot follow",
            FatalError::SurfaceUnavailable => "Failed to acquire next surface texture!",
        }
    }
}

/// Time to wait before a frame that is asked for `elapsed_micros` after the
/// previous one.
pub open spec fn pacing_delay(elapsed_micros: nat) -> nat {
    if elapsed_micros < FRAME_INTERVAL_MICROS {
        (FRAME_INTERVAL_MICROS - elapsed_micros) as nat
    } else {
        0
    }
}

/// The context once the session is over.
pub open spec fn halted(context: WgpuContext) -> WgpuContext {
    WgpuContext { phase: FramePhase::Halted, ..context }
}

/// What a failed acquisition leads to. The first failure is answered by one
/// more try, after configuring the surface again where it was outdated or
/// lost; without memory the session ends at once. A second failure is fatal.
pub open spec fn after_fault(context: WgpuContext, fault: SurfaceFault) -> (
    WgpuContext,
    LoopAction,
) {
    if context.phase != FramePhase::ComputeDispatched || context.acquisitions == 0 {
        (context, LoopAction::Nothing)
    } else if context.acquisitions == 1 {
        match fault {
            SurfaceFault::Timeout => (
                WgpuContext { acquisitions: 2, ..context },
                LoopAction::Acquire { reconfigure: false },
            ),
            SurfaceFault::Outdated | SurfaceFault::Lost => (
                WgpuContext { acquisitions: 2, ..context },
                LoopAction::Acquire { reconfigure: true },
            ),
            SurfaceFault::OutOfMemory => (halted(context), LoopAction::Exit),
        }
    } else {
        (halted(context), LoopAction::Fail(FatalError::SurfaceUnavailable))
    }
}

/// One turn of the loop: the context after the event, and what to do.
/// An event that the phase does not expect changes nothing.
pub open spec fn step(context: WgpuContext, event: LoopEvent) -> (WgpuContext, LoopAction) {
    if context.phase == FramePhase::Halted {
        (context, LoopAction::Nothing)
    } else {
        match event {
            LoopEvent::CloseRequested => (halted(context), LoopAction::Exit),
            LoopEvent::KeyPressed(Key::Escape) => (halted(context), LoopAction::Exit),
            LoopEvent::KeyPressed(Key::S) => (context, LoopAction::RequestRedraw),
            LoopEvent::KeyPressed(Key::Other) => (context, LoopAction::Nothing),
            LoopEvent::Resized => (
                halted(context),
                LoopAction::Fail(FatalError::ResizeUnsupported),
            ),
            LoopEvent::RedrawRequested => if context.phase == FramePhase::Idle {
                (
                    WgpuContext {
                        phase: FramePhase::ComputeDispatched,
                        acquisitions: 0,
                        ..context
                    },
                    LoopAction::Compute(context.frame_plan().compute),
                )
            } else {
                (context, LoopAction::Nothing)
            },
            LoopEvent::ComputeSubmitted => if context.phase == FramePhase::ComputeDispatched
                && context.acquisitions == 0 {
                (
                    WgpuContext { acquisitions: 1, ..context },
                    LoopAction::Acquire { reconfigure: false },
                )
            } else {
                (context, LoopAction::Nothing)
            },
            LoopEvent::SurfaceAcquired => if context.phase == FramePhase::ComputeDispatched
                && context.acquisitions > 0 {
                (
                    WgpuContext { phase: FramePhase::Rendered, ..context },
                    LoopAction::Draw(context.frame_plan().draw),
                )
            } else {
                (context, LoopAction::Nothing)
            },
            LoopEvent::SurfaceFailed(fault) => after_fault(context, fault),
            LoopEvent::DrawSubmitted => if context.phase == FramePhase::Rendered {
                (WgpuContext { phase: FramePhase::Presented, ..context }, LoopAction::Present)
            } else {
                (context, LoopAction::Nothing)
            },
            LoopEvent::FramePresented => if context.phase == FramePhase::Presented {
                (
                    WgpuContext {
                        phase: FramePhase::Idle,
                        frame_num: (context.frame_num + 1) as usize,
                        acquisitions: 0,
                        ..context
                    },
                    LoopAction::RequestRedraw,
                )
            } else {
                (context, LoopAction::Nothing)
            },
        }
    }
}

/// The context after a run of events, taken one turn at a time.
pub open spec fn after(context: WgpuContext, events: Seq<LoopEvent>) -> WgpuContext
    decreases events.len(),
{
    if events.len() == 0 {
        context
    } else {
        step(after(context, events.drop_last()), events.last()).0
    }
}

/// Number of actions of one sort that a run of events leads to.
pub open spec fn tally(
    context: WgpuContext,
    events: Seq<LoopEvent>,
    sort: spec_fn(LoopAction) -> bool,
) -> nat
    decreases events.len(),
{
    if events.len() == 0 {
        0
    } else {
        let earlier = tally(context, events.drop_last(), sort);
        if sort(step(after(context, events.drop_last()), events.last()).1) {
            earlier + 1
        } else {
            earlier
        }
    }
}

/// The action hands a compute pass to the device.
pub open spec fn is_compute(action: LoopAction) -> bool {
    action is Compute
}

/// The action asks the surface for an image.
pub open spec fn is_acquire(action: LoopAction) -> bool {
    action is Acquire
}

/// The action configures the surface again.
pub open spec fn is_reconfigure(action: LoopAction) -> bool {
    action == (LoopAction::Acquire { reconfigure: true })
}

/// The action hands a draw pass to the device.
pub open spec fn is_draw(action: LoopAction) -> bool {
    action is Draw
}

/// The action hands an image back for display.
pub open spec fn is_present(action: LoopAction) -> bool {
    action == LoopAction::Present
}

/// How the counts of a session stand in each phase: `done` frames are
/// finished, and the frame under way has got as far as the phase says.
pub open spec fn in_step(
    phase: FramePhase,
    acquisitions: u8,
    done: int,
    computes: int,
    acquires: int,
    reconfigures: int,
    draws: int,
    presents: int,
) -> bool {
    &&& done <= presents <= draws <= computes <= done + 1
    &&& reconfigures <= computes
    &&& acquires <= 2 * computes
    &&& match phase {
        FramePhase::Idle => computes == done,
        FramePhase::ComputeDispatched => {
            &&& computes == done + 1
            &&& draws == done
            &&& acquisitions <= 1 ==> reconfigures < computes
            &&& acquisitions <= 1 ==> acquires + 2 <= 2 * computes + acquisitions
        },
        FramePhase::Rendered => draws == done + 1 && presents == done,
        FramePhase::Presented => presents == done + 1,
        FramePhase::Halted => true,
    }
}

/// Whatever events come in whatever order after an idle start, the passes
/// keep their order and nothing is done twice for a frame: the numbers of
/// frames finished, images presented, draw passes and compute passes never
/// rise from one to the next and differ by one at most; the surface is
/// configured again at most once per compute pass and asked for an image at
/// most twice; and the frame counter has advanced by the frames finished.
pub proof fn lemma_frames_stay_in_step(context: WgpuContext, events: Seq<LoopEvent>)
    requires
        context.phase == FramePhase::Idle,
        context.frame_num + events.len() <= usize::MAX,
    ensures
        in_step(
            after(context, events).phase,
            after(context, events).acquisitions,
            after(context, events).frame_num - context.frame_num,
            tally(context, events, |a: LoopAction| is_compute(a)) as int,
            tally(context, events, |a: LoopAction| is_acquire(a)) as int,
            tally(context, events, |a: LoopAction| is_reconfigure(a)) as int,
            tally(context, events, |a: LoopAction| is_draw(a)) as int,
            tally(context, events, |a: LoopAction| is_present(a)) as int,
        ),
        0 <= after(context, events).frame_num - context.frame_num <= events.len(),
        after(context, events).work_group_count == context.work_group_count,
        after(context, events).instance_count == context.instance_count,
        after(context, events).layout == context.layout,
    decreases events.len(),
{
    if events.len() > 0 {
        lemma_frames_stay_in_step(context, events.drop_last());
    }
}

/// An image is handed back for display only once its draw pass was handed
/// to the device, and a draw pass only onto an image that was had after
/// the compute pass.
pub proof fn lemma_passes_in_order(context: WgpuContext, event: LoopEvent)
    ensures
        step(context, event).1 == LoopAction::Present ==> context.phase == FramePhase::Rendered
            && event == LoopEvent::DrawSubmitted,
        step(context, event).1 is Draw ==> context.phase == FramePhase::ComputeDispatched
            && event == LoopEvent::SurfaceAcquired,
        step(context, event).1 is Compute ==> context.phase == FramePhase::Idle && event
            == LoopEvent::RedrawRequested,
        step(context, event).1 is Acquire ==> context.phase == FramePhase::ComputeDispatched,
{
}

/// The frame counter moves only when a presented frame is reported, and
/// then by one.
pub proof fn lemma_counter_advances_on_present(context: WgpuContext, event: LoopEvent)
    requires
        context.frame_num < usize::MAX,
    ensures
        step(context, event).0.frame_num == if context.phase == FramePhase::Presented && event
            == LoopEvent::FramePresented {
            context.frame_num + 1
        } else {
            context.frame_num as int
        },
{
}

/// Once the session is over nothing more is asked for.
pub proof fn lemma_halted_is_final(context: WgpuContext, event: LoopEvent)
    requires
        context.phase == FramePhase::Halted,
    ensures
        step(context, event) == (context, LoopAction::Nothing),
{
}

/// A resize, a second failure to get an image, and a failure for want of
/// memory each end the session, whatever the phase.
pub proof fn lemma_fatal_events_halt(context: WgpuContext, event: LoopEvent)
    requires
        context.phase != FramePhase::Halted,
    ensures
        event == LoopEvent::Resized ==> step(context, event) == (
            halted(context),
            LoopAction::Fail(FatalError::ResizeUnsupported),
        ),
        event == LoopEvent::CloseRequested || event == LoopEvent::KeyPressed(Key::Escape)
            ==> step(context, event) == (halted(context), LoopAction::Exit),
        step(context, event).1 is Fail || step(context, event).1 == LoopAction::Exit ==> step(
            context,
            event,
        ).0.phase == FramePhase::Halted,
{
}

/// Time to wait, in microseconds, before a frame that is asked for
/// `elapsed_micros` after the previous one, so that frames come no faster
/// than one per `FRAME_INTERVAL_MICROS`.
pub fn frame_delay_micros(elapsed_micros: u128) -> (delay: u64)
    ensures
        delay == pacing_delay(elapsed_micros as nat),
        delay <= FRAME_INTERVAL_MICROS,
        elapsed_micros + delay >= FRAME_INTERVAL_MICROS,
{
    if elapsed_micros < FRAME_INTERVAL_MICROS as u128 {
        FRAME_INTERVAL_MICROS - elapsed_micros as u64
    } else {
        0
    }
}

fn halt(context: &mut WgpuContext)
    ensures
        *final(context) == halted(*old(context)),
{
    context.phase = FramePhase::Halted;
}

fn on_fault(context: &mut WgpuContext, fault: SurfaceFault) -> (action: LoopAction)
    ensures
        (*final(context), action) == after_fault(*old(context), fault),
{
    if context.phase != FramePhase::ComputeDispatched || context.acquisitions == 0 {
        LoopAction::Nothing
    } else if context.acquisitions == 1 {
        match fault {
            SurfaceFault::Timeout => {
                context.acquisitions = 2;
                LoopAction::Acquire { reconfigure: false }
            },
            SurfaceFault::Outdated | SurfaceFault::Lost => {
                context.acquisitions = 2;
                LoopAction::Acquire { reconfigure: true }
            },
            SurfaceFault::OutOfMemory => {
                halt(context);
                LoopAction::Exit
            },
        }
    } else {
        halt(context);
        LoopAction::Fail(FatalError::SurfaceUnavailable)
    }
}

/// Runs one turn of the loop: takes an event, moves the frame along and
/// says what to do next.
pub fn run(context: &mut WgpuContext, event: LoopEvent) -> (action: LoopAction)
    requires
        old(context).frame_num < usize::MAX,
    ensures
        (*final(context), action) == step(*old(context), event),
{
    if context.phase == FramePhase::Halted {
        return LoopAction::Nothing;
    }
    match event {
        LoopEvent::CloseRequested => {
            halt(context);
            LoopAction::Exit
        },
        LoopEvent::KeyPressed(key) => match key {
            Key::Escape => {
                halt(context);
                LoopAction::Exit
            },
            Key::S => LoopAction::RequestRedraw,
            Key::Other => LoopAction::Nothing,
        },
        LoopEvent::Resized => {
            halt(context);
            LoopAction::Fail(FatalError::ResizeUnsupported)
        },
        LoopEvent::RedrawRequested => {
            if context.phase == FramePhase::Idle {
                let plan = context.render();
                context.phase = FramePhase::ComputeDispatched;
                context.acquisitions = 0;
                LoopAction::Compute(plan.compute)
            } else {
                LoopAction::Nothing
            }
        },
        LoopEvent::ComputeSubmitted => {
            if context.phase == FramePhase::ComputeDispatched && context.acquisitions == 0 {
                context.acquisitions = 1;
                LoopAction::Acquire { reconfigure: false }
            } else {
                LoopAction::Nothing
            }
        },
        LoopEvent::SurfaceAcquired => {
            if context.phase == FramePhase::ComputeDispatched && context.acquisitions > 0 {
                let plan = context.render();
                context.phase = FramePhase::Rendered;
                LoopAction::Draw(plan.draw)
            } else {
                LoopAction::Nothing
            }
        },
        LoopEvent::SurfaceFailed(fault) => on_fault(context, fault),
        LoopEvent::DrawSubmitted => {
            if context.phase == FramePhase::Rendered {
                context.phase = FramePhase::Presented;
                LoopAction::Present
            } else {
                LoopAction::Nothing
            }
        },
        LoopEvent::FramePresented => {
            if context.phase == FramePhase::Presented {
                context.phase = FramePhase::Idle;
                context.frame_num = context.frame_num + 1;
                context.acquisitions = 0;
                LoopAction::RequestRedraw
            } else {
                LoopAction::Nothing
            }
        },
    }
}

} // verus!
