//! The loop driver: a state machine from platform notifications to
//! directives.
//!
//! The platform delivers an ordered stream of notifications — resize,
//! redraw requested, close requested. Handling one yields a directive
//! telling the surrounding program what to perform: reapply the surface
//! configuration, run a render cycle, merely request the next redraw, or
//! exit. Redraws go through the throttle, so render cycles never run
//! faster than the target period however fast redraw notifications
//! arrive; a rejected redraw still requests the next one, which keeps the
//! loop alive without busy-rendering. A close request is terminal.

use vstd::prelude::*;
use crate::clock::Clock;
use crate::gate::TimingGate;
use crate::surface::SurfaceManager;

verus! {

/// One notification from the platform event source.
#[derive(Clone, Copy, PartialEq, Eq, Structural, Debug)]
pub enum Notification {
    /// The window was resized to the reported size, which may be zero
    /// when the window is minimized.
    Resized { width: u32, height: u32 },
    /// The platform asks for a redraw.
    RedrawRequested,
    /// The user asked to close the window.
    CloseRequested,
}

/// Whether the loop is still running or has been asked to stop. The
/// resizing and rendering activity between two waits is entered and left
/// within the handling of a single notification, so only the waiting and
/// the terminal condition are observable phases.
#[derive(Clone, Copy, PartialEq, Eq, Structural, Debug)]
pub enum Phase {
    /// Waiting for the next notification.
    Idle,
    /// A close request was seen; the loop exits. Terminal.
    Closing,
}

/// What the surrounding program must perform after a notification is
/// handled.
#[derive(Clone, Copy, PartialEq, Eq, Structural, Debug)]
pub enum Directive {
    /// Reapply the stored surface configuration to the surface, then
    /// request the next redraw.
    Reconfigure,
    /// The throttle fired: run one render cycle, refresh the displayed
    /// statistics, then request the next redraw.
    Render,
    /// The throttle rejected this redraw: request the next redraw and nothing
    /// else.
    SkipRender,
    /// Stop the loop; discard any outstanding target and release owned
    /// resources in reverse acquisition order.
    Exit,
    /// The loop is already closing; nothing to perform.
    Ignore,
}

/// Consumes platform notifications and drives the throttle, the surface
/// configuration and the loop phase.
pub struct FrameScheduler {
    /// Source of the readings the throttle is evaluated at.
    pub clock: Clock,
    /// Throttle on render cycles.
    pub gate: TimingGate,
    /// Owner of the stored surface configuration.
    pub surface: SurfaceManager,
    /// Running or closing.
    pub phase: Phase,
}

impl FrameScheduler {
    /// The scheduler after handling `note` at clock reading `now`,
    /// together with the directive handed to the surrounding program.
    ///
    /// In the closing phase every notification is ignored. Otherwise: a
    /// resize stores the clamped size and directs a reconfigure; a redraw
    /// request fires the throttle when open, directing a render cycle, and
    /// directs a bare redraw request when closed; a close request is
    /// terminal and directs an exit.
    pub open spec fn handled(self, note: Notification, now: u64) -> (FrameScheduler, Directive) {
        if self.phase == Phase::Closing {
            (self, Directive::Ignore)
        } else {
            match note {
                Notification::Resized { width, height } => (
                    FrameScheduler {
                        surface: SurfaceManager { config: self.surface.reconfigured(width, height) },
                        ..self
                    },
                    Directive::Reconfigure,
                ),
                Notification::RedrawRequested => if self.gate.fires(now) {
                    (FrameScheduler { gate: self.gate.after_fire(now), ..self }, Directive::Render)
                } else {
                    (self, Directive::SkipRender)
                },
                Notification::CloseRequested => (
                    FrameScheduler { phase: Phase::Closing, ..self },
                    Directive::Exit,
                ),
            }
        }
    }

    /// A running scheduler around an initialized surface manager, with a
    /// throttle that has never fired and the given target period.
    pub fn new(surface: SurfaceManager, target_period_micros: u64) -> (s: FrameScheduler)
        ensures
            s.surface == surface,
            s.phase == Phase::Idle,
            s.gate.target_period_micros == target_period_micros,
            !s.gate.has_fired,
    {
        FrameScheduler {
            clock: Clock::new(),
            gate: TimingGate::new(target_period_micros),
            surface,
            phase: Phase::Idle,
        }
    }

    /// Handle one notification at the given clock reading; the whole
    /// effect and the returned directive are `handled`.
    pub fn handle_event_at(&mut self, note: Notification, now_micros: u64) -> (d: Directive)
        ensures
            *final(self) == old(self).handled(note, now_micros).0,
            d == old(self).handled(note, now_micros).1,
    {
        if matches!(self.phase, Phase::Closing) {
            return Directive::Ignore;
        }
        match note {
            Notification::Resized { width, height } => {
                self.surface.reconfigure(width, height);
                Directive::Reconfigure
            },
            Notification::RedrawRequested => {
                if self.gate.try_fire(now_micros) {
                    Directive::Render
                } else {
                    Directive::SkipRender
                }
            },
            Notification::CloseRequested => {
                self.phase = Phase::Closing;
                Directive::Exit
            },
        }
    }

    /// Handle one notification at the current clock reading; the effect
    /// and directive are `handled` at whatever reading the clock
    /// returned.
    pub fn handle_event(&mut self, note: Notification) -> (d: Directive)
        ensures
            exists|now: u64|
                *final(self) == #[trigger] old(self).handled(note, now).0 && d == old(self).handled(
                    note,
                    now,
                ).1,
    {
        let now = self.clock.now_micros();
        let d = self.handle_event_at(note, now);
        proof {
            assert(*self == old(self).handled(note, now).0 && d == old(self).handled(note, now).1);
        }
        d
    }
}

/// Redraw notifications arriving faster than the target period cause no
/// render cycle: when handling a redraw at reading `t1` directs a render,
/// and handling a redraw on the resulting scheduler at reading `t2`
/// directs a render again, the two cycles are separated by at least one
/// full target period.
pub proof fn lemma_renders_separated(s: FrameScheduler, t1: u64, t2: u64)
    requires
        s.gate.target_period_micros > 0,
        s.handled(Notification::RedrawRequested, t1).1 == Directive::Render,
        s.handled(Notification::RedrawRequested, t1).0.handled(
            Notification::RedrawRequested,
            t2,
        ).1 == Directive::Render,
    ensures
        t2 >= t1 + s.gate.target_period_micros,
{
    crate::gate::lemma_firings_separated(s.gate, t1, t2);
}

/// Handling a rejected redraw or a resize leaves the throttle untouched, so
/// the separation between render cycles is governed by the throttle alone,
/// however many skipped redraws or resizes come between them.
pub proof fn lemma_non_render_preserves_gate(s: FrameScheduler, note: Notification, now: u64)
    requires
        s.handled(note, now).1 != Directive::Render,
    ensures
        s.handled(note, now).0.gate == s.gate,
{
}

/// The closing phase is terminal: once a close request is handled, every
/// further notification is ignored and changes nothing, so no render
/// cycle is ever directed after a close.
pub proof fn lemma_closing_is_terminal(s: FrameScheduler, note: Notification, now: u64)
    requires
        s.phase == Phase::Closing,
    ensures
        s.handled(note, now).0 == s,
        s.handled(note, now).1 == Directive::Ignore,
{
}

} // verus!
