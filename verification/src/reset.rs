//! The reset button: held down for five seconds it wipes the configuration
//! and restarts the device, and while it is held the lights breathe to show
//! that the press was noticed.
//!
//! The task that watches the button waits for edges and timers; what to do
//! at each of them is decided here.

use vstd::prelude::*;

verus! {

/// Seconds for which the button is to be held down.
pub const RESET_HOLD_SECS: u64 = 5;

/// Seconds for which the lights confirm the reset before it happens.
pub const RESET_CONFIRM_SECS: u64 = 1;

/// Bit patterns of the dimmest and the brightest light of the breathing, the
/// single-precision numbers nearest to 0.05 and 0.5.
pub const BREATHE_MIN_BITS: u32 = 0x3D4C_CCCD;

pub const BREATHE_MAX_BITS: u32 = 0x3F00_0000;

/// Milliseconds of one breath while the button is held, and while the reset
/// is confirmed.
pub const HELD_BREATHE_PERIOD_MS: u32 = 1000;

pub const CONFIRM_BREATHE_PERIOD_MS: u32 = 100;

/// How far a reset has come.
#[derive(PartialEq, Eq, Structural, Clone, Copy, Debug)]
pub enum ResetPhase {
    /// The button is up.
    Idle,
    /// The button is down, and has been for less than the time to hold it.
    Held,
    /// The button was held long enough: the lights confirm the reset.
    Confirming,
}

/// What the task that watches the button reports.
#[derive(PartialEq, Eq, Structural, Clone, Copy, Debug)]
pub enum ButtonEvent {
    Pressed,
    Released,
    /// The button has been down for `RESET_HOLD_SECS`.
    HoldElapsed,
    /// The reset has been confirmed for `RESET_CONFIRM_SECS`.
    ConfirmElapsed,
}

/// One thing for the task to do.
#[derive(PartialEq, Eq, Structural, Clone, Copy, Debug)]
pub enum ResetAction {
    /// Take the lights away from the control loop.
    TakeoverLights,
    /// Start a breathing effect with breaths of `period_ms` milliseconds.
    StartBreathe { period_ms: u32 },
    /// Cancel the breathing effect and wait until it has ended.
    StopBreathe,
    /// Hand the lights back to the control loop.
    ReleaseLights,
    /// Delete the stored configuration.
    DeleteConfig,
    /// Restart the device.
    Restart,
}

impl ResetPhase {
    /// Whether the lights are away from the control loop in this phase.
    pub open spec fn holds_lights(self) -> bool {
        self == ResetPhase::Held
    }

    /// The phase that follows on `event`. An event that does not belong to
    /// the phase changes nothing.
    pub open spec fn after(self, event: ButtonEvent) -> ResetPhase {
        match (self, event) {
            (ResetPhase::Idle, ButtonEvent::Pressed) => ResetPhase::Held,
            (ResetPhase::Held, ButtonEvent::Released) => ResetPhase::Idle,
            (ResetPhase::Held, ButtonEvent::HoldElapsed) => ResetPhase::Confirming,
            (ResetPhase::Confirming, ButtonEvent::ConfirmElapsed) => ResetPhase::Idle,
            _ => self,
        }
    }

    /// What is to be done on `event`, in order. A press takes the lights and
    /// starts the slow breathing. A release before the time to hold is up
    /// stops the breathing and hands the lights back. When the time is up
    /// the same happens and the fast breathing starts, and when that has
    /// lasted its time it is stopped, the configuration is deleted and the
    /// device restarts.
    pub open spec fn actions_on(self, event: ButtonEvent) -> Seq<ResetAction> {
        match (self, event) {
            (ResetPhase::Idle, ButtonEvent::Pressed) => seq![
                ResetAction::TakeoverLights,
                ResetAction::StartBreathe { period_ms: HELD_BREATHE_PERIOD_MS },
            ],
            (ResetPhase::Held, ButtonEvent::Released) => seq![
                ResetAction::StopBreathe,
                ResetAction::ReleaseLights,
            ],
            (ResetPhase::Held, ButtonEvent::HoldElapsed) => seq![
                ResetAction::StopBreathe,
                ResetAction::ReleaseLights,
                ResetAction::StartBreathe { period_ms: CONFIRM_BREATHE_PERIOD_MS },
            ],
            (ResetPhase::Confirming, ButtonEvent::ConfirmElapsed) => seq![
                ResetAction::StopBreathe,
                ResetAction::DeleteConfig,
                ResetAction::Restart,
            ],
            _ => Seq::empty(),
        }
    }

    /// Takes note of `event` and says what is to be done, in order.
    pub fn on_event(&mut self, event: ButtonEvent) -> (r: Vec<ResetAction>)
        ensures
            *final(self) == old(self).after(event),
            r@ == old(self).actions_on(event),
    {
        let mut actions: Vec<ResetAction> = Vec::new();
        match (*self, event) {
            (ResetPhase::Idle, ButtonEvent::Pressed) => {
                actions.push(ResetAction::TakeoverLights);
                actions.push(ResetAction::StartBreathe { period_ms: HELD_BREATHE_PERIOD_MS });
                *self = ResetPhase::Held;
            },
            (ResetPhase::Held, ButtonEvent::Released) => {
                actions.push(ResetAction::StopBreathe);
                actions.push(ResetAction::ReleaseLights);
                *self = ResetPhase::Idle;
            },
            (ResetPhase::Held, ButtonEvent::HoldElapsed) => {
                actions.push(ResetAction::StopBreathe);
                actions.push(ResetAction::ReleaseLights);
                actions.push(ResetAction::StartBreathe { period_ms: CONFIRM_BREATHE_PERIOD_MS });
                *self = ResetPhase::Confirming;
            },
            (ResetPhase::Confirming, ButtonEvent::ConfirmElapsed) => {
                actions.push(ResetAction::StopBreathe);
                actions.push(ResetAction::DeleteConfig);
                actions.push(ResetAction::Restart);
                *self = ResetPhase::Idle;
            },
            _ => {},
        }
        assert(actions@ =~= old(self).actions_on(event));
        actions
    }
}

/// The button never asks for the lights twice without handing them back
/// between: it takes them only in a phase in which it does not have them,
/// and it has them afterwards; it hands them back whenever it leaves the
/// phase in which it has them, and only then; and before it hands them back
/// it has stopped the effect that drives them.
pub proof fn lemma_takeover_and_release_alternate(phase: ResetPhase, event: ButtonEvent)
    ensures
        phase.actions_on(event).contains(ResetAction::TakeoverLights) <==> !phase.holds_lights()
            && phase.after(event).holds_lights(),
        phase.actions_on(event).contains(ResetAction::ReleaseLights) <==> phase.holds_lights()
            && !phase.after(event).holds_lights(),
        phase.actions_on(event).contains(ResetAction::ReleaseLights) ==> phase.actions_on(
            event,
        ).index_of(ResetAction::StopBreathe) < phase.actions_on(event).index_of(
            ResetAction::ReleaseLights,
        ),
{
}

} // verus!
