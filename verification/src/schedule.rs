//! The schedule engine: what a schedule asks of the actuators at a time of day.
//!
//! The lighting window is open: at its first and at its last instant the lights
//! are off. A scheduled event is closed: it is on at its first and at its last
//! instant.

use crate::binary32::Binary32;
use crate::config::{HumidityMode, Schedule, ScheduledEvent};
use crate::time::{TimeOfDay, NANOS_PER_DAY, NANOS_PER_HOUR, NANOS_PER_SECOND};
use crate::types::ActuatorValues;
use vstd::arithmetic::mul::lemma_mul_inequality;
use vstd::prelude::*;

verus! {

impl ScheduledEvent {
    /// Nanoseconds for which each occurrence of the event lasts.
    pub open spec fn duration_nanos(self) -> int {
        self.duration_secs * NANOS_PER_SECOND
    }

    /// Nanoseconds between one occurrence and the next; zero for an event
    /// that does not repeat.
    pub open spec fn step_nanos(self) -> int {
        match self.repeat {
            Some(repeat) => repeat.n_hours * NANOS_PER_HOUR,
            None => 0,
        }
    }

    /// Start of occurrence `k`, in nanoseconds since midnight. Occurrence 0 is
    /// the event itself, occurrence `k` its `k`-th repetition. Nothing wraps
    /// round at midnight.
    pub open spec fn occurrence_start(self, k: int) -> int {
        self.start_time@ + k * self.step_nanos()
    }

    /// Whether occurrence `k` takes place: the event itself always does, a
    /// repetition does if it starts no later than the repeat rule's stop time.
    pub open spec fn occurs(self, k: int) -> bool {
        ||| k == 0
        ||| k > 0 && self.repeat is Some && self.occurrence_start(k) <= self.repeat->0.stop_time@
    }

    /// Whether `t` nanoseconds since midnight lie within occurrence `k`, both
    /// ends included.
    pub open spec fn covers(self, k: int, t: int) -> bool {
        self.occurrence_start(k) <= t <= self.occurrence_start(k) + self.duration_nanos()
    }

    /// Whether the event is on at `t`: some occurrence takes place and covers
    /// `t`.
    pub open spec fn active_at(self, t: TimeOfDay) -> bool {
        exists|k: int| #[trigger] self.occurs(k) && self.covers(k, t@ as int)
    }

    /// Whether the event is on at `t`.
    pub fn is_active_at(&self, t: TimeOfDay) -> (r: bool)
        ensures
            r == self.active_at(t),
            self.repeat is None ==> r == (self.start_time@ <= t@ <= self.start_time@
                + self.duration_nanos()),
    {
        let start: u64 = self.start_time.nanos();
        let now: u64 = t.nanos();
        let duration: u64 = (self.duration_secs as u64) * NANOS_PER_SECOND;
        if start <= now && now - start <= duration {
            assert(self.occurs(0) && self.covers(0, t@ as int));
            return true;
        }
        assert(!self.covers(0, t@ as int));
        match self.repeat {
            None => {
                assert forall|k: int| !(#[trigger] self.occurs(k) && self.covers(k, t@ as int)) by {}
                false
            },
            Some(repeat) => {
                let stop: u64 = repeat.stop_time.nanos();
                if repeat.n_hours == 0 {
                    assert forall|k: int| !(#[trigger] self.occurs(k) && self.covers(
                        k,
                        t@ as int,
                    )) by {
                        assert(k * self.step_nanos() == 0) by (nonlinear_arith)
                            requires
                                self.step_nanos() == 0,
                        ;
                    }
                    return false;
                }
                if repeat.n_hours >= 24 {
                    assert forall|k: int| !(#[trigger] self.occurs(k) && self.covers(
                        k,
                        t@ as int,
                    )) by {
                        if k > 0 {
                            lemma_mul_inequality(1, k, self.step_nanos());
                        }
                    }
                    return false;
                }
                let step: u64 = (repeat.n_hours as u64) * NANOS_PER_HOUR;
                let mut current: u64 = start;
                let ghost mut k: int = 0;
                while current <= stop && stop - current >= step
                    invariant
                        step == self.step_nanos(),
                        0 < step < NANOS_PER_DAY,
                        stop == repeat.stop_time@,
                        stop < NANOS_PER_DAY,
                        self.repeat == Some(repeat),
                        now == t@,
                        duration == self.duration_nanos(),
                        0 <= k,
                        current == self.occurrence_start(k),
                        forall|j: int|
                            0 <= j <= k ==> !(#[trigger] self.occurs(j) && self.covers(
                                j,
                                t@ as int,
                            )),
                    decreases stop - current,
                {
                    proof {
                        assert((k + 1) * self.step_nanos() == k * self.step_nanos()
                            + self.step_nanos()) by (nonlinear_arith);
                        k = k + 1;
                    }
                    current = current + step;
                    if current <= now && now - current <= duration {
                        assert(self.occurs(k) && self.covers(k, t@ as int));
                        return true;
                    }
                }
                assert forall|j: int| !(#[trigger] self.occurs(j) && self.covers(
                    j,
                    t@ as int,
                )) by {
                    if j > k {
                        lemma_mul_inequality(k + 1, j, self.step_nanos());
                        assert((k + 1) * self.step_nanos() == k * self.step_nanos()
                            + self.step_nanos()) by (nonlinear_arith);
                    }
                }
                false
            },
        }
    }
}

/// Whether one of `events` is on at `t`.
pub open spec fn any_active(events: Seq<ScheduledEvent>, t: TimeOfDay) -> bool {
    exists|i: int| 0 <= i < events.len() && (#[trigger] events[i]).active_at(t)
}

/// Whether one of `events` is on at `t`.
pub fn evaluate_scheduled_events(events: &Vec<ScheduledEvent>, t: TimeOfDay) -> (r: bool)
    ensures
        r == any_active(events@, t),
{
    let mut i: usize = 0;
    while i < events.len()
        invariant
            i <= events.len(),
            forall|j: int| 0 <= j < i ==> !(#[trigger] events@[j]).active_at(t),
        decreases events.len() - i,
    {
        if events[i].is_active_at(t) {
            return true;
        }
        i = i + 1;
    }
    false
}

impl Schedule {
    /// The light intensity that the schedule asks for at `t`: the configured
    /// intensity strictly inside the lighting window, and zero at its ends,
    /// outside it, and where window or intensity is not configured.
    pub open spec fn lights_at(self, t: TimeOfDay) -> Binary32 {
        if self.lights is Some && self.light_intensity is Some && self.lights->0.start@ < t@
            < self.lights->0.stop@ {
            self.light_intensity->0
        } else {
            Binary32 { bits: 0 }
        }
    }

    /// What the schedule asks of the actuators at `t`. In automatic mode the
    /// schedule never asks for mist.
    pub open spec fn values_at(self, t: TimeOfDay) -> ActuatorValues {
        ActuatorValues {
            lights: self.lights_at(t),
            mist: self.mist_mode == HumidityMode::Manual && any_active(self.mist@, t),
            fans: any_active(self.fans@, t),
        }
    }

    /// What the schedule asks of the actuators at `t`.
    pub fn evaluate(&self, t: TimeOfDay) -> (r: ActuatorValues)
        ensures
            r == self.values_at(t),
            self.lights is None ==> r.lights.bits == 0,
    {
        let mut v = ActuatorValues::default();
        if let Some(lights) = &self.lights {
            if let Some(intensity) = self.light_intensity {
                if lights.start.nanos() < t.nanos() && t.nanos() < lights.stop.nanos() {
                    v.lights = intensity;
                }
            }
        }
        match self.mist_mode {
            HumidityMode::Auto => {
                v.mist = false;
            },
            HumidityMode::Manual => {
                v.mist = evaluate_scheduled_events(&self.mist, t);
            },
        }
        v.fans = evaluate_scheduled_events(&self.fans, t);
        v
    }
}

} // verus!
