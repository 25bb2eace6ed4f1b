//! Render loop driver: the state machine that turns window-system events
//! and frame-acquisition outcomes into backend actions.
//!
//! The loop itself — pumping events, touching the GPU — lives outside the
//! library; it feeds every event and every acquisition outcome through
//! the driver and performs exactly the action the driver returns.

use vstd::prelude::*;
use crate::surface::SurfaceConfig;

verus! {

/// State of the render loop.
#[derive(Clone, Copy, Debug, PartialEq, Eq, Structural)]
pub enum LoopMode {
    Running,
    Exiting,
}

/// A window-system event, as the event pump reports it.
#[derive(Clone, Copy, Debug, PartialEq, Eq, Structural)]
pub enum OverlayEvent {
    CloseRequested,
    Resized { width: u32, height: u32 },
    RedrawRequested,
    Other,
}

/// What the loop must do in response to an event.
#[derive(Clone, Copy, Debug, PartialEq, Eq, Structural)]
pub enum EventAction {
    /// Stop the loop and release backend resources.
    Exit,
    /// Re-bind the surface to the driver's configuration.
    Reconfigure,
    /// Run one redraw tick: advance the timer, draw, submit.
    Render,
    /// Nothing.
    Ignore,
}

/// Outcome of acquiring the next presentable target for a redraw tick.
#[derive(Clone, Copy, Debug, PartialEq, Eq, Structural)]
pub enum AcquireOutcome {
    /// A target was acquired and can be drawn into.
    Acquired,
    /// The surface was lost and must be re-bound.
    Lost,
    /// The backend is out of memory; the loop cannot go on.
    OutOfMemory,
    /// Some other transient failure; retry next tick.
    Transient,
}

/// What the loop must do with the current redraw tick.
#[derive(Clone, Copy, Debug, PartialEq, Eq, Structural)]
pub enum FrameDirective {
    /// Draw, submit and present this frame.
    Present,
    /// Reconfigure the surface once and skip this frame.
    ReconfigureAndSkip,
    /// Skip this frame only; retry next tick.
    Skip,
    /// Stop the loop and release backend resources.
    Exit,
}

/// How many surface reconfigurations a directive asks of the loop.
pub open spec fn directive_reconfigures(d: FrameDirective) -> nat {
    match d {
        FrameDirective::ReconfigureAndSkip => 1,
        _ => 0,
    }
}

/// How many presents a directive asks of the loop.
pub open spec fn directive_presents(d: FrameDirective) -> nat {
    match d {
        FrameDirective::Present => 1,
        _ => 0,
    }
}

/// How many redraw ticks an event action asks of the loop.
pub open spec fn action_renders(a: EventAction) -> nat {
    match a {
        EventAction::Render => 1,
        _ => 0,
    }
}

/// The render loop driver: its mode and the surface configuration it
/// maintains across resizes.
#[derive(Clone, Copy, Debug, PartialEq, Eq, Structural)]
pub struct OverlayDriver {
    pub mode: LoopMode,
    pub config: SurfaceConfig,
}

/// One event step. A close request moves the driver to `Exiting`; a
/// resize is applied — and a reconfigure requested — only when both
/// dimensions are strictly positive; a redraw request asks for one
/// render tick. Once exiting, every event is ignored.
pub open spec fn spec_on_event(d: OverlayDriver, e: OverlayEvent) -> (OverlayDriver, EventAction) {
    if d.mode == LoopMode::Exiting {
        (d, EventAction::Ignore)
    } else {
        match e {
            OverlayEvent::CloseRequested => (
                OverlayDriver { mode: LoopMode::Exiting, ..d },
                EventAction::Exit,
            ),
            OverlayEvent::Resized { width, height } => {
                if width > 0 && height > 0 {
                    (
                        OverlayDriver {
                            config: SurfaceConfig { width, height, ..d.config },
                            ..d
                        },
                        EventAction::Reconfigure,
                    )
                } else {
                    (d, EventAction::Ignore)
                }
            },
            OverlayEvent::RedrawRequested => (d, EventAction::Render),
            OverlayEvent::Other => (d, EventAction::Ignore),
        }
    }
}

/// One frame-acquisition step. A lost surface asks for one reconfigure
/// and no present; out-of-memory moves the driver to `Exiting`; any
/// other failure skips the frame only.
pub open spec fn spec_on_acquire(d: OverlayDriver, r: AcquireOutcome) -> (
    OverlayDriver,
    FrameDirective,
) {
    match r {
        AcquireOutcome::Acquired => (d, FrameDirective::Present),
        AcquireOutcome::Lost => (d, FrameDirective::ReconfigureAndSkip),
        AcquireOutcome::OutOfMemory => (
            OverlayDriver { mode: LoopMode::Exiting, ..d },
            FrameDirective::Exit,
        ),
        AcquireOutcome::Transient => (d, FrameDirective::Skip),
    }
}

impl OverlayDriver {
    /// A fresh driver: running, with the given surface configuration.
    pub fn new(config: SurfaceConfig) -> (d: OverlayDriver)
        ensures
            d == (OverlayDriver { mode: LoopMode::Running, config }),
    {
        OverlayDriver { mode: LoopMode::Running, config }
    }

    /// Feeds one window-system event through the state machine and
    /// returns the action the loop must perform for it.
    pub fn on_event(&mut self, e: OverlayEvent) -> (a: EventAction)
        ensures
            (*final(self), a) == spec_on_event(*old(self), e),
            old(self).config.wf() ==> final(self).config.wf(),
    {
        if matches!(self.mode, LoopMode::Exiting) {
            return EventAction::Ignore;
        }
        match e {
            OverlayEvent::CloseRequested => {
                self.mode = LoopMode::Exiting;
                EventAction::Exit
            },
            OverlayEvent::Resized { width, height } => {
                if width > 0 && height > 0 {
                    self.config.width = width;
                    self.config.height = height;
                    EventAction::Reconfigure
                } else {
                    EventAction::Ignore
                }
            },
            OverlayEvent::RedrawRequested => EventAction::Render,
            OverlayEvent::Other => EventAction::Ignore,
        }
    }

    /// Feeds the outcome of acquiring this tick's presentable target
    /// through the state machine and returns what to do with the tick.
    pub fn on_acquire(&mut self, outcome: AcquireOutcome) -> (dir: FrameDirective)
        requires
            old(self).mode == LoopMode::Running,
        ensures
            (*final(self), dir) == spec_on_acquire(*old(self), outcome),
            final(self).config == old(self).config,
    {
        match outcome {
            AcquireOutcome::Acquired => FrameDirective::Present,
            AcquireOutcome::Lost => FrameDirective::ReconfigureAndSkip,
            AcquireOutcome::OutOfMemory => {
                self.mode = LoopMode::Exiting;
                FrameDirective::Exit
            },
            AcquireOutcome::Transient => FrameDirective::Skip,
        }
    }

    /// Whether the loop should ask for another redraw after draining
    /// pending events: continuously while running, never once exiting.
    pub fn wants_redraw(&self) -> (r: bool)
        ensures
            r == (self.mode == LoopMode::Running),
    {
        matches!(self.mode, LoopMode::Running)
    }
}

/// Renders asked for by a sequence of events fed through the driver.
pub open spec fn spec_render_count(d: OverlayDriver, events: Seq<OverlayEvent>) -> nat
    decreases events.len(),
{
    if events.len() == 0 {
        0
    } else {
        let (d2, a) = spec_on_event(d, events[0]);
        action_renders(a) + spec_render_count(d2, events.drop_first())
    }
}

/// An exiting driver never renders again, whatever events still arrive.
pub proof fn lemma_exiting_never_renders(d: OverlayDriver, events: Seq<OverlayEvent>)
    requires
        d.mode == LoopMode::Exiting,
    ensures
        spec_render_count(d, events) == 0,
    decreases events.len(),
{
    if events.len() > 0 {
        let (d2, a) = spec_on_event(d, events[0]);
        assert(d2 == d);
        lemma_exiting_never_renders(d2, events.drop_first());
    }
}

/// A lost surface on frame acquisition yields exactly one reconfigure
/// and no present for that tick, and the loop keeps running.
pub proof fn lemma_lost_surface_reconfigures_once(d: OverlayDriver)
    requires
        d.mode == LoopMode::Running,
    ensures
        ({
            let (d2, dir) = spec_on_acquire(d, AcquireOutcome::Lost);
            &&& directive_reconfigures(dir) == 1
            &&& directive_presents(dir) == 0
            &&& d2 == d
        }),
{
}

/// An out-of-memory acquisition stops the loop: no present for that
/// tick, the driver moves to `Exiting`, and no sequence of further
/// events yields another render.
pub proof fn lemma_out_of_memory_stops_loop(d: OverlayDriver, later_events: Seq<OverlayEvent>)
    requires
        d.mode == LoopMode::Running,
    ensures
        ({
            let (d2, dir) = spec_on_acquire(d, AcquireOutcome::OutOfMemory);
            &&& directive_presents(dir) == 0
            &&& d2.mode == LoopMode::Exiting
            &&& spec_render_count(d2, later_events) == 0
        }),
{
    let (d2, dir) = spec_on_acquire(d, AcquireOutcome::OutOfMemory);
    lemma_exiting_never_renders(d2, later_events);
}

/// A resize with a zero dimension is never forwarded to the backend: a
/// reconfigure is requested exactly for strictly positive sizes, which
/// then become the configured size unchanged; any other resize leaves
/// the configuration untouched, so an accepted configuration keeps both
/// dimensions at one or more.
pub proof fn lemma_degenerate_resize_rejected(d: OverlayDriver, width: u32, height: u32)
    ensures
        ({
            let (d2, a) = spec_on_event(d, OverlayEvent::Resized { width, height });
            &&& (a == EventAction::Reconfigure <==> d.mode == LoopMode::Running && width >= 1
                && height >= 1)
            &&& (a == EventAction::Reconfigure ==> d2.config.width == width && d2.config.height
                == height)
            &&& (a != EventAction::Reconfigure ==> d2.config == d.config)
            &&& (d.config.wf() ==> d2.config.wf())
        }),
{
}

} // verus!
