//! Light effects: what an effect asks of the lights, step by step.
//!
//! An effect drives the lights directly while the control loop keeps its
//! hands off them. The task that runs an effect waits and listens for its
//! cancellation; what to do next is decided here.

use crate::binary32::Binary32;
use crate::terrarium::Terrarium;
use vstd::prelude::*;

verus! {

/// What happened while a breathing effect waited.
#[derive(PartialEq, Eq, Structural, Clone, Copy, Debug)]
pub enum EffectEvent {
    /// The time of the fade went by.
    TimerElapsed,
    /// The effect was asked to stop.
    Cancelled,
}

/// What a breathing effect does next.
#[derive(PartialEq, Eq, Structural, Clone, Copy, Debug)]
pub enum EffectStep {
    /// Fade the lights to `target` over `millis` milliseconds, and wait as
    /// long for the fade to end or for the effect to be cancelled.
    Fade { target: Binary32, millis: i32 },
    /// Set the lights back to `restore`, acknowledge the cancellation, and
    /// end.
    Finish { restore: Binary32 },
}

/// The breathing effect: the lights fade up to `max` and down to `min` in
/// turn, each fade taking half of `period_ms`, until the effect is cancelled.
#[derive(PartialEq, Eq, Structural, Clone, Copy, Debug)]
pub struct Breathe {
    /// The light intensity from before the effect.
    pub lights_before: Binary32,
    pub min: Binary32,
    pub max: Binary32,
    pub period_ms: u32,
    /// Whether the fade under way goes up.
    pub up: bool,
}

impl Breathe {
    /// The fade that is under way.
    pub open spec fn fade(self) -> EffectStep {
        EffectStep::Fade {
            target: if self.up {
                self.max
            } else {
                self.min
            },
            millis: (self.period_ms / 2) as i32,
        }
    }

    /// The effect with its fade turned round.
    pub open spec fn turned(self) -> Breathe {
        Breathe {
            lights_before: self.lights_before,
            min: self.min,
            max: self.max,
            period_ms: self.period_ms,
            up: !self.up,
        }
    }

    /// A breathing effect that starts from lights at `lights_before`, and its
    /// first step, the fade up.
    pub fn start(lights_before: Binary32, min: Binary32, max: Binary32, period_ms: u32) -> (r: (
        Breathe,
        EffectStep,
    ))
        ensures
            r.0 == (Breathe { lights_before, min, max, period_ms, up: true }),
            r.1 == r.0.fade(),
    {
        let effect = Breathe { lights_before, min, max, period_ms, up: true };
        (effect, EffectStep::Fade { target: max, millis: (period_ms / 2) as i32 })
    }

    /// What follows `event`: the effect as it goes on, if it does, and its
    /// next step. When the time of a fade has gone by, the lights fade the
    /// other way. When the effect is cancelled, the lights go back to what
    /// they were before it and the effect is over: it ends with that one
    /// step, whatever it was doing.
    pub fn next(self, event: EffectEvent) -> (r: (Option<Breathe>, EffectStep))
        ensures
            event == EffectEvent::Cancelled ==> r.0 is None && r.1 == (EffectStep::Finish {
                restore: self.lights_before,
            }),
            event == EffectEvent::TimerElapsed ==> r.0 == Some(self.turned()) && r.1
                == self.turned().fade(),
    {
        match event {
            EffectEvent::Cancelled => (None, EffectStep::Finish { restore: self.lights_before }),
            EffectEvent::TimerElapsed => {
                let turned = Breathe {
                    lights_before: self.lights_before,
                    min: self.min,
                    max: self.max,
                    period_ms: self.period_ms,
                    up: !self.up,
                };
                let target = if turned.up {
                    turned.max
                } else {
                    turned.min
                };
                (Some(turned), EffectStep::Fade { target, millis: (turned.period_ms / 2) as i32 })
            },
        }
    }
}

/// Asks the hardware for what a step of an effect wants of the lights.
pub fn perform<T: Terrarium>(step: EffectStep, terrarium: &mut T)
    ensures
        final(terrarium).requested() == old(terrarium).requested().with_lights(
            match step {
                EffectStep::Fade { target, millis } => target,
                EffectStep::Finish { restore } => restore,
            },
        ),
{
    match step {
        EffectStep::Fade { target, millis } => {
            terrarium.set_lights_with_fade(target, millis);
        },
        EffectStep::Finish { restore } => {
            terrarium.set_lights(restore);
        },
    }
}

/// Bit pattern of the dim light between the strokes of lightning, the
/// single-precision number nearest to 0.15.
pub const BASELINE_BRIGHTNESS_BITS: u32 = 0x3E19_999A;

/// Milliseconds over which the lights fade down before the lightning starts.
pub const LIGHTNING_SETTLE_MILLIS: i32 = 3000;

/// How many random numbers one round of lightning may use up.
pub const LIGHTNING_DRAWS: usize = 27;

/// One setting of the lights in a round of lightning. The lights are set to
/// `base` plus `hundredths` hundredths, and stay so for `hold_ms`
/// milliseconds.
#[derive(PartialEq, Eq, Structural, Clone, Copy, Debug)]
pub struct Flash {
    pub base: Binary32,
    pub hundredths: u32,
    pub hold_ms: u64,
}

/// The kinds of lightning.
#[derive(PartialEq, Eq, Structural, Clone, Copy, Debug)]
pub enum Strike {
    /// One bright flash.
    Single,
    /// Two flashes with a dim moment between them.
    Double,
    /// Three to six flashes of varying intensity.
    Complex,
    /// One dim and slow flash, far away.
    Distant,
}

/// The kind of lightning that a random number picks: single in forty cases
/// of a hundred, double in thirty, complex in twenty and distant in ten.
pub open spec fn strike_for(draw: u64) -> Strike {
    if draw % 100 < 40 {
        Strike::Single
    } else if draw % 100 < 70 {
        Strike::Double
    } else if draw % 100 < 90 {
        Strike::Complex
    } else {
        Strike::Distant
    }
}

/// A setting of the lights at `base_bits` plus up to `span` hundredths, held
/// for `least_ms` milliseconds plus up to `spread_ms` more, as the two random
/// numbers say.
pub open spec fn flash_of(
    base_bits: u32,
    span: u64,
    offset_draw: u64,
    least_ms: u64,
    spread_ms: u64,
    hold_draw: u64,
) -> Flash {
    Flash {
        base: Binary32 { bits: base_bits },
        hundredths: (offset_draw % span) as u32,
        hold_ms: (least_ms + hold_draw % spread_ms) as u64,
    }
}

/// The end of a round: back to the dim light, for one second up to four and
/// a half.
pub open spec fn calm(draw: u64) -> Flash {
    Flash {
        base: Binary32 { bits: BASELINE_BRIGHTNESS_BITS },
        hundredths: 0,
        hold_ms: (1000 + draw % 3500) as u64,
    }
}

/// How many flashes a complex strike has: three to six.
pub open spec fn complex_flashes(draw: u64) -> int {
    3 + draw % 4
}

/// Step `i` of a complex strike: a flash at even steps, the dim moment after
/// it at odd ones.
pub open spec fn complex_step(draws: Seq<u64>, i: int) -> Flash {
    if i % 2 == 0 {
        flash_of(0x3F00_0000, 50, draws[2 + 2 * i], 30, 90, draws[3 + 2 * i])
    } else {
        flash_of(BASELINE_BRIGHTNESS_BITS, 15, draws[2 + 2 * i], 20, 80, draws[3 + 2 * i])
    }
}

/// The settings of the lights that make up one round of lightning, worked
/// out from random numbers, which are used in order. The first number picks
/// the kind of strike.
pub open spec fn lightning_flashes(draws: Seq<u64>) -> Seq<Flash> {
    match strike_for(draws[0]) {
        Strike::Single => seq![
            flash_of(0x3F4C_CCCD, 20, draws[1], 50, 100, draws[2]),
            calm(draws[3]),
        ],
        Strike::Double => seq![
            flash_of(0x3F33_3333, 20, draws[1], 50, 50, draws[2]),
            flash_of(0x3E4C_CCCD, 10, draws[3], 30, 50, draws[4]),
            flash_of(0x3F59_999A, 15, draws[5], 100, 100, draws[6]),
            calm(draws[7]),
        ],
        Strike::Complex => {
            let steps = 2 * complex_flashes(draws[1]);
            Seq::new(
                (steps + 1) as nat,
                |i: int|
                    if i < steps {
                        complex_step(draws, i)
                    } else {
                        calm(draws[2 + 2 * steps])
                    },
            )
        },
        Strike::Distant => seq![
            flash_of(0x3E99_999A, 20, draws[1], 200, 200, draws[2]),
            flash_of(BASELINE_BRIGHTNESS_BITS, 10, draws[3], 100, 100, draws[4]),
            calm(draws[5]),
        ],
    }
}

fn flash(
    base_bits: u32,
    span: u64,
    offset_draw: u64,
    least_ms: u64,
    spread_ms: u64,
    hold_draw: u64,
) -> (r: Flash)
    requires
        0 < span <= 100,
        0 < spread_ms <= 10_000,
        least_ms <= 10_000,
    ensures
        r == flash_of(base_bits, span, offset_draw, least_ms, spread_ms, hold_draw),
{
    Flash {
        base: Binary32::from_bits(base_bits),
        hundredths: (offset_draw % span) as u32,
        hold_ms: least_ms + hold_draw % spread_ms,
    }
}

/// One round of lightning from `draws`, which must hold at least
/// `LIGHTNING_DRAWS` random numbers; with fewer there is no round.
pub fn lightning_round(draws: &Vec<u64>) -> (r: Option<Vec<Flash>>)
    ensures
        r is Some <==> draws@.len() >= LIGHTNING_DRAWS,
        r is Some ==> r->0@ == lightning_flashes(draws@),
{
    if draws.len() < LIGHTNING_DRAWS {
        return None;
    }
    let kind: u64 = draws[0] % 100;
    let mut flashes: Vec<Flash> = Vec::new();
    if kind < 40 {
        flashes.push(flash(0x3F4C_CCCD, 20, draws[1], 50, 100, draws[2]));
        flashes.push(flash(BASELINE_BRIGHTNESS_BITS, 1, 0, 1000, 3500, draws[3]));
    } else if kind < 70 {
        flashes.push(flash(0x3F33_3333, 20, draws[1], 50, 50, draws[2]));
        flashes.push(flash(0x3E4C_CCCD, 10, draws[3], 30, 50, draws[4]));
        flashes.push(flash(0x3F59_999A, 15, draws[5], 100, 100, draws[6]));
        flashes.push(flash(BASELINE_BRIGHTNESS_BITS, 1, 0, 1000, 3500, draws[7]));
    } else if kind < 90 {
        let steps: usize = 2 * (3 + (draws[1] % 4) as usize);
        let mut i: usize = 0;
        while i < steps
            invariant
                draws@.len() >= LIGHTNING_DRAWS,
                steps == 2 * complex_flashes(draws@[1]),
                i <= steps <= 12,
                flashes@.len() == i,
                forall|j: int| 0 <= j < i ==> flashes@[j] == complex_step(draws@, j),
            decreases steps - i,
        {
            if i % 2 == 0 {
                flashes.push(flash(0x3F00_0000, 50, draws[2 + 2 * i], 30, 90, draws[3 + 2 * i]));
            } else {
                flashes.push(
                    flash(BASELINE_BRIGHTNESS_BITS, 15, draws[2 + 2 * i], 20, 80, draws[3 + 2 * i]),
                );
            }
            i = i + 1;
        }
        flashes.push(flash(BASELINE_BRIGHTNESS_BITS, 1, 0, 1000, 3500, draws[2 + 2 * steps]));
    } else {
        flashes.push(flash(0x3E99_999A, 20, draws[1], 200, 200, draws[2]));
        flashes.push(flash(BASELINE_BRIGHTNESS_BITS, 10, draws[3], 100, 100, draws[4]));
        flashes.push(flash(BASELINE_BRIGHTNESS_BITS, 1, 0, 1000, 3500, draws[5]));
    }
    assert(flashes@ =~= lightning_flashes(draws@));
    Some(flashes)
}

} // verus!
