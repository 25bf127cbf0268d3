//! The override store: at most one pending override for each actuator, each
//! with the time at which it was set and the time for which it holds.
//!
//! Each actuator has a slot of its own, typed by what the actuator takes, so
//! that an override of the wrong type cannot be stored. Nothing removes an
//! override but its replacement and `purge_expired`.

use crate::binary32::Binary32;
use crate::error::Error;
use crate::types::{
    Actuator, ActuatorOverride, ActuatorOverrideSet, ActuatorValue, ActuatorValues, NamedOverride,
};
use vstd::prelude::*;

verus! {

/// No override holds for longer than thirty minutes.
pub const MAX_OVERRIDE_DURATION_SECS: u32 = 1800;

/// An override that was accepted: its value, the time at which it was set, in
/// milliseconds since the Unix epoch, and the seconds for which it holds.
#[derive(Debug, PartialEq, Eq)]
pub struct Pending<V> {
    pub value: V,
    pub set_at: i64,
    pub duration_secs: u32,
}

impl<V: Copy> Clone for Pending<V> {
    fn clone(&self) -> (r: Pending<V>)
        ensures
            r == *self,
    {
        Pending { value: self.value, set_at: self.set_at, duration_secs: self.duration_secs }
    }
}

impl<V: Copy> Copy for Pending<V> {

}

impl<V> Pending<V> {
    /// The last millisecond, counted from the Unix epoch, at which the
    /// override holds.
    pub open spec fn expiry(self) -> int {
        self.set_at + self.duration_secs * 1000
    }

    /// Whether the override still holds at `now`: its expiry has not passed.
    pub open spec fn live_at(self, now: i64) -> bool {
        now <= self.expiry()
    }

    pub fn is_live_at(&self, now: i64) -> (r: bool)
        ensures
            r == self.live_at(now),
    {
        (now as i128) <= (self.set_at as i128) + (self.duration_secs as i128) * 1000
    }
}

/// What is left of a slot at `now`: the override if it still holds.
pub open spec fn unexpired<V>(slot: Option<Pending<V>>, now: i64) -> Option<Pending<V>> {
    if slot is Some && slot->0.live_at(now) {
        slot
    } else {
        None
    }
}

fn purge_slot<V: Copy>(slot: Option<Pending<V>>, now: i64) -> (r: Option<Pending<V>>)
    ensures
        r == unexpired(slot, now),
{
    match slot {
        Some(pending) => if pending.is_live_at(now) {
            Some(pending)
        } else {
            None
        },
        None => None,
    }
}

impl ActuatorOverride {
    /// What is wrong with the override, if anything: the mister and the fans
    /// take a switch position, the lights a number from zero to one.
    pub open spec fn violation(self) -> Option<Error> {
        match (self.actuator, self.value) {
            (Actuator::Mist, ActuatorValue::Bool(_)) => None,
            (Actuator::Mist, ActuatorValue::Float(_)) => Some(Error::ExpectedBoolForMist),
            (Actuator::Fans, ActuatorValue::Bool(_)) => None,
            (Actuator::Fans, ActuatorValue::Float(_)) => Some(Error::ExpectedBoolForFans),
            (Actuator::Lights, ActuatorValue::Bool(_)) => Some(Error::ExpectedFloatForLights),
            (Actuator::Lights, ActuatorValue::Float(level)) => if level.is_unit() {
                None
            } else {
                Some(Error::LightsValueOutOfRange(level))
            },
        }
    }

    /// The seconds for which the override holds: those asked for, but no more
    /// than thirty minutes.
    pub open spec fn clamped_secs(self) -> u32 {
        if self.duration_secs <= MAX_OVERRIDE_DURATION_SECS {
            self.duration_secs
        } else {
            MAX_OVERRIDE_DURATION_SECS
        }
    }

    /// Accepts the override if nothing is wrong with it, and otherwise says
    /// what is.
    pub fn validate(&self) -> (r: Result<(), Error>)
        ensures
            self.violation() is None ==> r is Ok,
            self.violation() is Some ==> r == Err::<(), Error>(self.violation()->0),
    {
        match self.actuator {
            Actuator::Mist => match self.value {
                ActuatorValue::Bool(_) => Ok(()),
                ActuatorValue::Float(_) => Err(Error::ExpectedBoolForMist),
            },
            Actuator::Lights => match self.value {
                ActuatorValue::Float(level) => if level.in_unit_interval() {
                    Ok(())
                } else {
                    Err(Error::LightsValueOutOfRange(level))
                },
                ActuatorValue::Bool(_) => Err(Error::ExpectedFloatForLights),
            },
            Actuator::Fans => match self.value {
                ActuatorValue::Bool(_) => Ok(()),
                ActuatorValue::Float(_) => Err(Error::ExpectedBoolForFans),
            },
        }
    }
}

/// The index of the first of `entries`, from `from` on, that is not
/// acceptable; the length of `entries` if there is none.
pub open spec fn first_invalid(entries: Seq<ActuatorOverride>, from: int) -> int
    decreases entries.len() - from,
{
    if from < 0 || from >= entries.len() {
        entries.len() as int
    } else if entries[from].violation() is Some {
        from
    } else {
        first_invalid(entries, from + 1)
    }
}

/// `first_invalid` is what its name says: it lies between `from` and the
/// length, every entry from `from` up to it is acceptable, and the entry at
/// it, if there is one, is not.
pub proof fn lemma_first_invalid(entries: Seq<ActuatorOverride>, from: int)
    requires
        0 <= from <= entries.len(),
    ensures
        from <= first_invalid(entries, from) <= entries.len(),
        forall|i: int|
            from <= i < first_invalid(entries, from) ==> (#[trigger] entries[i]).violation() is None,
        first_invalid(entries, from) < entries.len() ==> entries[first_invalid(
            entries,
            from,
        )].violation() is Some,
    decreases entries.len() - from,
{
    if from < entries.len() && entries[from].violation() is None {
        lemma_first_invalid(entries, from + 1);
    }
}

/// Whether every one of `entries` is acceptable.
pub open spec fn all_acceptable(entries: Seq<ActuatorOverride>) -> bool {
    forall|i: int| 0 <= i < entries.len() ==> (#[trigger] entries[i]).violation() is None
}

/// An override that gives a number to the mister or to the fans, or a switch
/// position to the lights, is not acceptable, and what is wrong with it names
/// the type that was expected. A command that holds such an override
/// anywhere is not acceptable as a whole.
pub proof fn lemma_wrong_type_is_refused(entries: Seq<ActuatorOverride>, i: int)
    requires
        0 <= i < entries.len(),
    ensures
        entries[i].actuator == Actuator::Mist && entries[i].value is Float
            ==> entries[i].violation() == Some(Error::ExpectedBoolForMist),
        entries[i].actuator == Actuator::Fans && entries[i].value is Float
            ==> entries[i].violation() == Some(Error::ExpectedBoolForFans),
        entries[i].actuator == Actuator::Lights && entries[i].value is Bool
            ==> entries[i].violation() == Some(Error::ExpectedFloatForLights),
        entries[i].violation() is Some ==> !all_acceptable(entries) && first_invalid(entries, 0)
            <= i,
{
    lemma_first_invalid(entries, 0);
}

/// Whether every override of a request names an actuator that exists.
pub open spec fn all_known(requests: Seq<NamedOverride>) -> bool {
    forall|i: int| 0 <= i < requests.len() ==> (#[trigger] requests[i]).resolved() is Some
}

/// The overrides that a request stands for, in its order. It is meant for a
/// request whose actuators all exist.
pub open spec fn resolved_all(requests: Seq<NamedOverride>) -> Seq<ActuatorOverride> {
    Seq::new(requests.len(), |i: int| requests[i].resolved()->0)
}

/// Finds the actuator of every override of a request. One name that stands
/// for no actuator has the whole request refused.
pub fn resolve_overrides(requests: &Vec<NamedOverride>) -> (r: Result<ActuatorOverrideSet, Error>)
    ensures
        r is Ok <==> all_known(requests@),
        r is Err ==> r->Err_0 == Error::UnknownActuator,
        r is Ok ==> r->Ok_0.updates@ == resolved_all(requests@),
{
    let mut updates: Vec<ActuatorOverride> = Vec::new();
    let mut i: usize = 0;
    while i < requests.len()
        invariant
            i <= requests@.len(),
            updates@.len() == i,
            forall|j: int| 0 <= j < i ==> Some(updates@[j]) == (#[trigger] requests@[j]).resolved(),
        decreases requests@.len() - i,
    {
        match requests[i].resolve() {
            Some(entry) => updates.push(entry),
            None => {
                return Err(Error::UnknownActuator);
            },
        }
        i = i + 1;
    }
    assert(updates@ =~= resolved_all(requests@));
    Ok(ActuatorOverrideSet { updates })
}

/// While an override holds, its actuator gets the override's value whatever
/// schedule and feedback ask for. Once its expiry has passed the override is
/// gone from the store, and its actuator gets what schedule and feedback ask
/// for, as an actuator without an override does.
pub proof fn lemma_override_takes_precedence(
    store: OverrideStore,
    base: ActuatorValues,
    now: i64,
    actuator: Actuator,
)
    ensures
        store.purged(now).holds(actuator) <==> store.live(actuator, now),
        store.live(actuator, now) ==> match actuator {
            Actuator::Lights => store.purged(now).lights == store.lights && store.purged(
                now,
            ).overriding(base).lights == store.lights->0.value,
            Actuator::Mist => store.purged(now).mist == store.mist && store.purged(now).overriding(
                base,
            ).mist == store.mist->0.value,
            Actuator::Fans => store.purged(now).fans == store.fans && store.purged(now).overriding(
                base,
            ).fans == store.fans->0.value,
        },
        !store.live(actuator, now) ==> match actuator {
            Actuator::Lights => store.purged(now).overriding(base).lights == base.lights,
            Actuator::Mist => store.purged(now).overriding(base).mist == base.mist,
            Actuator::Fans => store.purged(now).overriding(base).fans == base.fans,
        },
        store.purged(now).purged(now) == store.purged(now),
{
}

/// The pending overrides, one slot for each actuator.
#[derive(Debug, PartialEq, Eq)]
pub struct OverrideStore {
    pub lights: Option<Pending<Binary32>>,
    pub mist: Option<Pending<bool>>,
    pub fans: Option<Pending<bool>>,
}

impl OverrideStore {
    /// The store that holds no override.
    pub open spec fn empty() -> OverrideStore {
        OverrideStore { lights: None, mist: None, fans: None }
    }

    /// Whether the store holds an override for `actuator`.
    pub open spec fn holds(self, actuator: Actuator) -> bool {
        match actuator {
            Actuator::Lights => self.lights is Some,
            Actuator::Mist => self.mist is Some,
            Actuator::Fans => self.fans is Some,
        }
    }

    /// Whether the store holds an override for `actuator` that still holds at
    /// `now`.
    pub open spec fn live(self, actuator: Actuator, now: i64) -> bool {
        match actuator {
            Actuator::Lights => self.lights is Some && self.lights->0.live_at(now),
            Actuator::Mist => self.mist is Some && self.mist->0.live_at(now),
            Actuator::Fans => self.fans is Some && self.fans->0.live_at(now),
        }
    }

    /// The store without the overrides whose expiry has passed at `now`.
    pub open spec fn purged(self, now: i64) -> OverrideStore {
        OverrideStore {
            lights: unexpired(self.lights, now),
            mist: unexpired(self.mist, now),
            fans: unexpired(self.fans, now),
        }
    }

    /// The store after an acceptable override was taken in at `now`: it
    /// replaces what its actuator's slot held. An override that is not
    /// acceptable leaves the store as it is.
    pub open spec fn with(self, entry: ActuatorOverride, now: i64) -> OverrideStore {
        if entry.violation() is Some {
            self
        } else {
            match (entry.actuator, entry.value) {
                (Actuator::Lights, ActuatorValue::Float(level)) => OverrideStore {
                    lights: Some(
                        Pending { value: level, set_at: now, duration_secs: entry.clamped_secs() },
                    ),
                    mist: self.mist,
                    fans: self.fans,
                },
                (Actuator::Mist, ActuatorValue::Bool(on)) => OverrideStore {
                    lights: self.lights,
                    mist: Some(
                        Pending { value: on, set_at: now, duration_secs: entry.clamped_secs() },
                    ),
                    fans: self.fans,
                },
                (Actuator::Fans, ActuatorValue::Bool(on)) => OverrideStore {
                    lights: self.lights,
                    mist: self.mist,
                    fans: Some(
                        Pending { value: on, set_at: now, duration_secs: entry.clamped_secs() },
                    ),
                },
                _ => self,
            }
        }
    }

    /// The store after `entries` were taken in at `now`, one after the other.
    pub open spec fn with_all(self, entries: Seq<ActuatorOverride>, now: i64) -> OverrideStore
        decreases entries.len(),
    {
        if entries.len() == 0 {
            self
        } else {
            self.with_all(entries.drop_last(), now).with(entries.last(), now)
        }
    }

    /// The values that go to the actuators: for each actuator the value of its
    /// override if the store holds one, and that of `base` if not.
    pub open spec fn overriding(self, base: ActuatorValues) -> ActuatorValues {
        ActuatorValues {
            lights: if self.lights is Some {
                self.lights->0.value
            } else {
                base.lights
            },
            mist: if self.mist is Some {
                self.mist->0.value
            } else {
                base.mist
            },
            fans: if self.fans is Some {
                self.fans->0.value
            } else {
                base.fans
            },
        }
    }

    pub fn new() -> (r: OverrideStore)
        ensures
            r == OverrideStore::empty(),
    {
        OverrideStore { lights: None, mist: None, fans: None }
    }

    /// Removes every override whose expiry has passed at `now`.
    pub fn purge_expired(&mut self, now: i64)
        ensures
            *final(self) == old(self).purged(now),
    {
        self.lights = purge_slot(self.lights, now);
        self.mist = purge_slot(self.mist, now);
        self.fans = purge_slot(self.fans, now);
    }

    /// The values that go to the actuators when the schedule and the humidity
    /// feedback ask for `base`.
    pub fn apply(&self, base: ActuatorValues) -> (r: ActuatorValues)
        ensures
            r == self.overriding(base),
    {
        let mut values = base;
        if let Some(pending) = &self.lights {
            values.lights = pending.value;
        }
        if let Some(pending) = &self.mist {
            values.mist = pending.value;
        }
        if let Some(pending) = &self.fans {
            values.fans = pending.value;
        }
        values
    }

    /// Takes one override in at `now` if it is acceptable, and says what is
    /// wrong with it if not. What is taken in replaces the override that its
    /// actuator had; its duration is cut down to thirty minutes.
    pub fn insert(&mut self, entry: &ActuatorOverride, now: i64) -> (r: Result<(), Error>)
        ensures
            entry.violation() is None ==> r is Ok,
            entry.violation() is Some ==> r == Err::<(), Error>(entry.violation()->0),
            *final(self) == old(self).with(*entry, now),
    {
        let duration_secs: u32 = if entry.duration_secs <= MAX_OVERRIDE_DURATION_SECS {
            entry.duration_secs
        } else {
            MAX_OVERRIDE_DURATION_SECS
        };
        match entry.actuator {
            Actuator::Mist => match entry.value {
                ActuatorValue::Bool(on) => {
                    self.mist = Some(Pending { value: on, set_at: now, duration_secs });
                    Ok(())
                },
                ActuatorValue::Float(_) => Err(Error::ExpectedBoolForMist),
            },
            Actuator::Lights => match entry.value {
                ActuatorValue::Float(level) => {
                    if !level.in_unit_interval() {
                        return Err(Error::LightsValueOutOfRange(level));
                    }
                    self.lights = Some(Pending { value: level, set_at: now, duration_secs });
                    Ok(())
                },
                ActuatorValue::Bool(_) => Err(Error::ExpectedFloatForLights),
            },
            Actuator::Fans => match entry.value {
                ActuatorValue::Bool(on) => {
                    self.fans = Some(Pending { value: on, set_at: now, duration_secs });
                    Ok(())
                },
                ActuatorValue::Float(_) => Err(Error::ExpectedBoolForFans),
            },
        }
    }
}

} // verus!
