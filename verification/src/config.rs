//! The configuration of a terrarium and the partial updates that change it.
//!
//! An update says of every field whether it is set to a value, cleared, or
//! left as it is. It is checked as a whole before any of it is carried out.

use crate::binary32::Binary32;
use crate::error::Error;
use crate::influxdb;
use crate::time::{TimeOfDay, NANOS_PER_HOUR, NANOS_PER_MINUTE};
use vstd::prelude::*;
use vstd::string::{StrSliceExecFns, StringExecFns};

verus! {

/// A device name has at most this many characters.
pub const MAX_NAME_CHARS: usize = 30;

/// Bit pattern of the number that a humidity setpoint must stay below, the
/// single-precision number nearest to 0.95.
pub const HUMIDITY_SETPOINT_LIMIT_BITS: u32 = 0x3F73_3333;

/// Bit pattern of the light intensity of the default schedule, the
/// single-precision number nearest to 0.6.
pub const DEFAULT_LIGHT_INTENSITY_BITS: u32 = 0x3F19_999A;

/// Everything that a terrarium is configured with.
#[derive(PartialEq, Debug)]
pub struct TerrariumConfig {
    pub name: Option<String>,
    pub wifi: Option<WifiDetails>,
    pub schedule: Option<Schedule>,
    /// IANA name of the time zone in which the schedule is read.
    pub timezone: Option<String>,
    pub influxdb: Option<influxdb::Config>,
}

/// The credentials of the wireless network to join.
#[derive(PartialEq, Debug)]
pub struct WifiDetails {
    pub ssid: String,
    pub password: String,
}

/// The part of the day during which the lights are on.
#[derive(PartialEq, Eq, Structural, Clone, Copy, Debug)]
pub struct TimeRange {
    pub start: TimeOfDay,
    pub stop: TimeOfDay,
}

/// How the mister is driven.
#[derive(PartialEq, Eq, Structural, Clone, Copy, Debug)]
pub enum HumidityMode {
    /// By the humidity sensor, to keep the humidity at the setpoint.
    Auto,
    /// By the misting events of the schedule.
    Manual,
}

/// How an event repeats: every `n_hours` hours, as long as the repetition
/// starts no later than `stop_time`.
#[derive(PartialEq, Eq, Structural, Clone, Copy, Debug)]
pub struct RepeatInfo {
    pub n_hours: u32,
    pub stop_time: TimeOfDay,
}

/// Something that is switched on at a time of day for a number of seconds,
/// once or repeatedly.
#[derive(PartialEq, Eq, Clone, Copy, Debug)]
pub struct ScheduledEvent {
    pub start_time: TimeOfDay,
    pub duration_secs: u32,
    pub repeat: Option<RepeatInfo>,
}

/// When the lights, the fans and the mister are on in the course of a day.
#[derive(PartialEq, Debug)]
pub struct Schedule {
    pub lights: Option<TimeRange>,
    pub light_intensity: Option<Binary32>,
    pub fans: Vec<ScheduledEvent>,
    /// Misting events; they count in manual mode only.
    pub mist: Vec<ScheduledEvent>,
    pub mist_mode: HumidityMode,
    /// Humidity below which the mister runs; it counts in automatic mode only.
    pub humidity_setpoint: Option<Binary32>,
}

/// A change to one field: a new value, no value, or no change.
#[derive(Debug, PartialEq)]
pub enum Update<T> {
    SetTo(T),
    Clear,
    NoChange,
}

/// A change to a schedule, field by field.
#[derive(PartialEq, Debug)]
pub struct ScheduleUpdate {
    pub lights: Update<TimeRange>,
    pub light_intensity: Update<Binary32>,
    pub fans: Update<Vec<ScheduledEvent>>,
    pub mist: Update<Vec<ScheduledEvent>>,
    pub mist_mode: Update<HumidityMode>,
    pub humidity_setpoint: Update<Binary32>,
}

/// A change to a configuration, field by field.
#[derive(PartialEq, Debug)]
pub struct TerrariumConfigUpdate {
    pub name: Update<String>,
    pub wifi: Update<WifiDetails>,
    pub schedule: Update<ScheduleUpdate>,
    pub timezone: Update<String>,
    pub influxdb: Update<influxdb::Config>,
}

impl Default for HumidityMode {
    fn default() -> (r: HumidityMode)
        ensures
            r == HumidityMode::Manual,
    {
        HumidityMode::Manual
    }
}

impl<T> Default for Update<T> {
    fn default() -> (r: Update<T>)
        ensures
            r is NoChange,
    {
        Update::NoChange
    }
}

impl<T: Clone> Clone for Update<T> {
    fn clone(&self) -> (r: Update<T>)
        ensures
            self is Clear <==> r is Clear,
            self is NoChange <==> r is NoChange,
            self is SetTo ==> r is SetTo && cloned(self->0, r->0),
    {
        match self {
            Update::SetTo(value) => Update::SetTo(value.clone()),
            Update::Clear => Update::Clear,
            Update::NoChange => Update::NoChange,
        }
    }
}

impl<T> Update<T> {
    /// What an optional field holds after the change.
    pub open spec fn applied(self, current: Option<T>) -> Option<T> {
        match self {
            Update::SetTo(value) => Some(value),
            Update::Clear => None,
            Update::NoChange => current,
        }
    }

    /// The change as a field of a request: absent for no change, present
    /// without a value to clear, present with a value to set.
    pub open spec fn nested(self) -> Option<Option<T>> {
        match self {
            Update::SetTo(value) => Some(Some(value)),
            Update::Clear => Some(None),
            Update::NoChange => None,
        }
    }

    /// The change that a field of a request stands for.
    pub open spec fn of_nested(field: Option<Option<T>>) -> Update<T> {
        match field {
            Some(Some(value)) => Update::SetTo(value),
            Some(None) => Update::Clear,
            None => Update::NoChange,
        }
    }

    pub fn is_no_change(&self) -> (r: bool)
        ensures
            r == (self is NoChange),
    {
        match self {
            Update::NoChange => true,
            _ => false,
        }
    }

    pub fn into_nested(self) -> (r: Option<Option<T>>)
        ensures
            r == self.nested(),
    {
        match self {
            Update::SetTo(value) => Some(Some(value)),
            Update::Clear => Some(None),
            Update::NoChange => None,
        }
    }

    pub fn from_nested(field: Option<Option<T>>) -> (r: Update<T>)
        ensures
            r == Self::of_nested(field),
    {
        match field {
            Some(Some(value)) => Update::SetTo(value),
            Some(None) => Update::Clear,
            None => Update::NoChange,
        }
    }
}

/// A change written out as a field of a request and read back is the same
/// change: what was set stays set to the same value, what was cleared stays
/// cleared, and what was left out stays left out. The other way round, every
/// field of a request is the written form of the change that it stands for.
pub proof fn lemma_update_round_trip<T>(update: Update<T>, field: Option<Option<T>>)
    ensures
        Update::of_nested(update.nested()) == update,
        Update::of_nested(field).nested() == field,
        update is NoChange <==> update.nested() is None,
        update is Clear <==> update.nested() == Some(None::<T>),
{
}

impl Clone for WifiDetails {
    fn clone(&self) -> (r: WifiDetails)
        ensures
            r == *self,
    {
        WifiDetails { ssid: self.ssid.clone(), password: self.password.clone() }
    }
}

/// A copy of a list of events.
pub fn copy_events(events: &Vec<ScheduledEvent>) -> (r: Vec<ScheduledEvent>)
    ensures
        r@ == events@,
{
    let mut copy: Vec<ScheduledEvent> = Vec::new();
    let mut i: usize = 0;
    while i < events.len()
        invariant
            i <= events.len(),
            copy@ == events@.take(i as int),
        decreases events.len() - i,
    {
        copy.push(events[i]);
        i = i + 1;
    }
    copy
}

impl Schedule {
    /// Whether the schedule is what `before` becomes under `update`, a
    /// schedule that was not there counting as one under which nothing is
    /// ever on.
    pub open spec fn follows(self, before: Option<Schedule>, update: ScheduleUpdate) -> bool {
        &&& self.lights == update.lights.applied(
            if before is Some {
                before->0.lights
            } else {
                None
            },
        )
        &&& self.light_intensity == update.light_intensity.applied(
            if before is Some {
                before->0.light_intensity
            } else {
                None
            },
        )
        &&& self.fans@ == ScheduleUpdate::applied_events(
            update.fans,
            if before is Some {
                before->0.fans@
            } else {
                Seq::empty()
            },
        )
        &&& self.mist@ == ScheduleUpdate::applied_events(
            update.mist,
            if before is Some {
                before->0.mist@
            } else {
                Seq::empty()
            },
        )
        &&& self.mist_mode == ScheduleUpdate::applied_mode(
            update.mist_mode,
            if before is Some {
                before->0.mist_mode
            } else {
                HumidityMode::Manual
            },
        )
        &&& self.humidity_setpoint == update.humidity_setpoint.applied(
            if before is Some {
                before->0.humidity_setpoint
            } else {
                None
            },
        )
    }

    /// Whether two schedules say the same.
    pub open spec fn same_as(self, other: Schedule) -> bool {
        &&& self.lights == other.lights
        &&& self.light_intensity == other.light_intensity
        &&& self.fans@ == other.fans@
        &&& self.mist@ == other.mist@
        &&& self.mist_mode == other.mist_mode
        &&& self.humidity_setpoint == other.humidity_setpoint
    }

    /// A schedule under which nothing is ever on.
    pub open spec fn is_empty(self) -> bool {
        &&& self.lights is None
        &&& self.light_intensity is None
        &&& self.fans@ == Seq::<ScheduledEvent>::empty()
        &&& self.mist@ == Seq::<ScheduledEvent>::empty()
        &&& self.mist_mode == HumidityMode::Manual
        &&& self.humidity_setpoint is None
    }
}

impl Clone for Schedule {
    fn clone(&self) -> (r: Schedule)
        ensures
            r.same_as(*self),
    {
        Schedule {
            lights: self.lights,
            light_intensity: self.light_intensity,
            fans: copy_events(&self.fans),
            mist: copy_events(&self.mist),
            mist_mode: self.mist_mode,
            humidity_setpoint: self.humidity_setpoint,
        }
    }
}

impl Default for Schedule {
    fn default() -> (r: Schedule)
        ensures
            r.is_empty(),
    {
        Schedule {
            lights: None,
            light_intensity: None,
            fans: Vec::new(),
            mist: Vec::new(),
            mist_mode: HumidityMode::Manual,
            humidity_setpoint: None,
        }
    }
}

impl Schedule {
    /// Whether this is the schedule with which plants do well if nobody ever
    /// changes it: light at six tenths from 10:00 to 22:00, the fans for ten
    /// minutes at half past every hour from 10:30 to 22:00, and mist for
    /// thirty seconds at 10:01.
    pub open spec fn is_reasonable_default(self) -> bool {
        &&& self.lights is Some
        &&& self.lights->0.start@ == 10 * NANOS_PER_HOUR
        &&& self.lights->0.stop@ == 22 * NANOS_PER_HOUR
        &&& self.light_intensity == Some(Binary32 { bits: DEFAULT_LIGHT_INTENSITY_BITS })
        &&& self.fans@.len() == 1
        &&& self.fans@[0].start_time@ == 10 * NANOS_PER_HOUR + 30 * NANOS_PER_MINUTE
        &&& self.fans@[0].duration_secs == 600
        &&& self.fans@[0].repeat is Some
        &&& self.fans@[0].repeat->0.n_hours == 1
        &&& self.fans@[0].repeat->0.stop_time@ == 22 * NANOS_PER_HOUR
        &&& self.mist@.len() == 1
        &&& self.mist@[0].start_time@ == 10 * NANOS_PER_HOUR + NANOS_PER_MINUTE
        &&& self.mist@[0].duration_secs == 30
        &&& self.mist@[0].repeat is None
        &&& self.mist_mode == HumidityMode::Manual
        &&& self.humidity_setpoint is None
    }

    pub fn new_with_reasonable_defaults() -> (r: Schedule)
        ensures
            r.is_reasonable_default(),
    {
        let ten = TimeOfDay::from_hms(10, 0, 0).unwrap();
        let one_past_ten = TimeOfDay::from_hms(10, 1, 0).unwrap();
        let half_past_ten = TimeOfDay::from_hms(10, 30, 0).unwrap();
        let twenty_two = TimeOfDay::from_hms(22, 0, 0).unwrap();
        let mut fans: Vec<ScheduledEvent> = Vec::new();
        fans.push(
            ScheduledEvent {
                start_time: half_past_ten,
                duration_secs: 10 * 60,
                repeat: Some(RepeatInfo { n_hours: 1, stop_time: twenty_two }),
            },
        );
        let mut mist: Vec<ScheduledEvent> = Vec::new();
        mist.push(ScheduledEvent { start_time: one_past_ten, duration_secs: 30, repeat: None });
        Schedule {
            lights: Some(TimeRange { start: ten, stop: twenty_two }),
            light_intensity: Some(Binary32::from_bits(DEFAULT_LIGHT_INTENSITY_BITS)),
            fans,
            mist,
            humidity_setpoint: None,
            mist_mode: HumidityMode::Manual,
        }
    }

    /// Carries out a change, field by field. A list of events that is cleared
    /// becomes empty, and a mode that is cleared becomes manual.
    pub fn update(&mut self, update: &ScheduleUpdate)
        ensures
            final(self).lights == update.lights.applied(old(self).lights),
            final(self).light_intensity == update.light_intensity.applied(
                old(self).light_intensity,
            ),
            final(self).fans@ == ScheduleUpdate::applied_events(update.fans, old(self).fans@),
            final(self).mist@ == ScheduleUpdate::applied_events(update.mist, old(self).mist@),
            final(self).mist_mode == ScheduleUpdate::applied_mode(
                update.mist_mode,
                old(self).mist_mode,
            ),
            final(self).humidity_setpoint == update.humidity_setpoint.applied(
                old(self).humidity_setpoint,
            ),
    {
        match &update.lights {
            Update::SetTo(lights) => self.lights = Some(*lights),
            Update::Clear => self.lights = None,
            Update::NoChange => {},
        }
        match &update.light_intensity {
            Update::SetTo(intensity) => self.light_intensity = Some(*intensity),
            Update::Clear => self.light_intensity = None,
            Update::NoChange => {},
        }
        match &update.fans {
            Update::SetTo(fans) => self.fans = copy_events(fans),
            Update::Clear => self.fans = Vec::new(),
            Update::NoChange => {},
        }
        match &update.mist {
            Update::SetTo(mist) => self.mist = copy_events(mist),
            Update::Clear => self.mist = Vec::new(),
            Update::NoChange => {},
        }
        match &update.mist_mode {
            Update::SetTo(mist_mode) => self.mist_mode = *mist_mode,
            Update::Clear => self.mist_mode = HumidityMode::default(),
            Update::NoChange => {},
        }
        match &update.humidity_setpoint {
            Update::SetTo(humidity_setpoint) => self.humidity_setpoint = Some(*humidity_setpoint),
            Update::Clear => self.humidity_setpoint = None,
            Update::NoChange => {},
        }
    }
}

impl ScheduledEvent {
    /// Whether the event may stand in a schedule: if it repeats, it repeats
    /// until a time that is strictly after its start.
    pub open spec fn well_formed(self) -> bool {
        self.repeat is Some ==> self.start_time@ < self.repeat->0.stop_time@
    }

    pub fn validate(&self) -> (r: Result<(), Error>)
        ensures
            self.well_formed() ==> r is Ok,
            !self.well_formed() ==> r == Err::<(), Error>(Error::RepeatStopNotAfterStart),
    {
        if let Some(repeat) = &self.repeat {
            if self.start_time.nanos() >= repeat.stop_time.nanos() {
                return Err(Error::RepeatStopNotAfterStart);
            }
        }
        Ok(())
    }
}

/// Whether every one of `events` may stand in a schedule.
pub open spec fn all_well_formed(events: Seq<ScheduledEvent>) -> bool {
    forall|i: int| 0 <= i < events.len() ==> (#[trigger] events[i]).well_formed()
}

pub fn validate_scheduled_events(events: &Vec<ScheduledEvent>) -> (r: Result<(), Error>)
    ensures
        all_well_formed(events@) ==> r is Ok,
        !all_well_formed(events@) ==> r == Err::<(), Error>(Error::RepeatStopNotAfterStart),
{
    let mut i: usize = 0;
    while i < events.len()
        invariant
            i <= events.len(),
            forall|j: int| 0 <= j < i ==> (#[trigger] events@[j]).well_formed(),
        decreases events.len() - i,
    {
        match events[i].validate() {
            Ok(()) => {},
            Err(e) => {
                return Err(e);
            },
        }
        i = i + 1;
    }
    Ok(())
}

impl ScheduleUpdate {
    /// What a list of events holds after a change to it.
    pub open spec fn applied_events(
        update: Update<Vec<ScheduledEvent>>,
        current: Seq<ScheduledEvent>,
    ) -> Seq<ScheduledEvent> {
        match update {
            Update::SetTo(events) => events@,
            Update::Clear => Seq::empty(),
            Update::NoChange => current,
        }
    }

    /// The humidity mode after a change to it.
    pub open spec fn applied_mode(update: Update<HumidityMode>, current: HumidityMode)
        -> HumidityMode {
        match update {
            Update::SetTo(mode) => mode,
            Update::Clear => HumidityMode::Manual,
            Update::NoChange => current,
        }
    }

    /// Whether a list of events that the update sets is acceptable.
    pub open spec fn events_ok(update: Update<Vec<ScheduledEvent>>) -> bool {
        update is SetTo ==> all_well_formed(update->0@)
    }

    /// Whether the lighting window, if the update sets one, starts strictly
    /// before it stops.
    pub open spec fn window_ok(self) -> bool {
        self.lights is SetTo ==> self.lights->0.start@ < self.lights->0.stop@
    }

    /// Whether the light intensity, if the update sets one, is a number from
    /// zero to one.
    pub open spec fn intensity_ok(self) -> bool {
        self.light_intensity is SetTo ==> self.light_intensity->0.is_unit()
    }

    /// Whether the humidity setpoint, if the update sets one, is at least zero
    /// and below the limit.
    pub open spec fn setpoint_ok(self) -> bool {
        self.humidity_setpoint is SetTo ==> self.humidity_setpoint->0.is_fraction_below(
            HUMIDITY_SETPOINT_LIMIT_BITS,
        )
    }

    /// Whether the update may be carried out: every rule holds.
    pub open spec fn is_valid(self) -> bool {
        &&& Self::events_ok(self.mist)
        &&& Self::events_ok(self.fans)
        &&& self.window_ok()
        &&& self.intensity_ok()
        &&& self.setpoint_ok()
    }

    /// The complaint about the update: that of the first rule that it breaks,
    /// the rules taken in the order misting events, fan events, lighting
    /// window, light intensity, humidity setpoint.
    pub open spec fn violation(self) -> Option<Error> {
        if !Self::events_ok(self.mist) || !Self::events_ok(self.fans) {
            Some(Error::RepeatStopNotAfterStart)
        } else if !self.window_ok() {
            Some(Error::LightWindowNotOrdered)
        } else if !self.intensity_ok() {
            Some(Error::LightIntensityOutOfRange(self.light_intensity->0))
        } else if !self.setpoint_ok() {
            Some(Error::HumiditySetpointOutOfRange(self.humidity_setpoint->0))
        } else {
            None
        }
    }

    /// Accepts the update if every rule holds, and otherwise reports the first
    /// rule that is broken.
    pub fn validate(&self) -> (r: Result<(), Error>)
        ensures
            r is Ok <==> self.is_valid(),
            r is Ok <==> self.violation() is None,
            r is Err ==> self.violation() == Some(r->Err_0),
    {
        if let Update::SetTo(mist) = &self.mist {
            match validate_scheduled_events(mist) {
                Ok(()) => {},
                Err(e) => {
                    return Err(e);
                },
            }
        }
        if let Update::SetTo(fans) = &self.fans {
            match validate_scheduled_events(fans) {
                Ok(()) => {},
                Err(e) => {
                    return Err(e);
                },
            }
        }
        if let Update::SetTo(lights) = &self.lights {
            if lights.stop.nanos() <= lights.start.nanos() {
                return Err(Error::LightWindowNotOrdered);
            }
        }
        if let Update::SetTo(light_intensity) = &self.light_intensity {
            if !light_intensity.in_unit_interval() {
                return Err(Error::LightIntensityOutOfRange(*light_intensity));
            }
        }
        if let Update::SetTo(humidity_setpoint) = &self.humidity_setpoint {
            if !humidity_setpoint.in_fraction_below(HUMIDITY_SETPOINT_LIMIT_BITS) {
                return Err(Error::HumiditySetpointOutOfRange(*humidity_setpoint));
            }
        }
        Ok(())
    }
}

impl TerrariumConfigUpdate {
    /// Whether the schedule change, if the update holds one, may be carried
    /// out.
    pub open spec fn schedule_ok(self) -> bool {
        self.schedule is SetTo ==> self.schedule->0.is_valid()
    }

    /// Whether the device name, if the update sets one, is not empty and has
    /// at most thirty characters.
    pub open spec fn name_ok(self) -> bool {
        self.name is SetTo ==> 0 < self.name->0@.len() <= MAX_NAME_CHARS
    }

    /// Whether the update may be carried out: every rule holds.
    pub open spec fn is_valid(self) -> bool {
        self.schedule_ok() && self.name_ok()
    }

    /// The complaint about the update: that about its schedule change if
    /// there is one, else that about the name.
    pub open spec fn violation(self) -> Option<Error> {
        if !self.schedule_ok() {
            self.schedule->0.violation()
        } else if self.name is SetTo && self.name->0@.len() > MAX_NAME_CHARS {
            Some(Error::NameTooLong)
        } else if self.name is SetTo && self.name->0@.len() == 0 {
            Some(Error::NameEmpty)
        } else {
            None
        }
    }

    /// Whether the update touches what the radio is set up with, the
    /// credentials or the device name.
    pub fn needs_wifi_reset(&self) -> (r: bool)
        ensures
            r == !(self.wifi is NoChange && self.name is NoChange),
    {
        !self.wifi.is_no_change() || !self.name.is_no_change()
    }

    /// Accepts the update if every rule holds, and otherwise reports the first
    /// rule that is broken.
    pub fn validate(&self) -> (r: Result<(), Error>)
        ensures
            r is Ok <==> self.is_valid(),
            r is Ok <==> self.violation() is None,
            r is Err ==> self.violation() == Some(r->Err_0),
    {
        if let Update::SetTo(schedule_update) = &self.schedule {
            match schedule_update.validate() {
                Ok(()) => {},
                Err(e) => {
                    return Err(e);
                },
            }
        }
        if let Update::SetTo(name) = &self.name {
            let chars: usize = name.as_str().unicode_len();
            if chars > MAX_NAME_CHARS {
                return Err(Error::NameTooLong);
            }
            if chars == 0 {
                return Err(Error::NameEmpty);
            }
        }
        Ok(())
    }
}

impl Default for ScheduleUpdate {
    fn default() -> (r: ScheduleUpdate)
        ensures
            r.lights is NoChange,
            r.light_intensity is NoChange,
            r.fans is NoChange,
            r.mist is NoChange,
            r.mist_mode is NoChange,
            r.humidity_setpoint is NoChange,
    {
        ScheduleUpdate {
            lights: Update::NoChange,
            light_intensity: Update::NoChange,
            fans: Update::NoChange,
            mist: Update::NoChange,
            mist_mode: Update::NoChange,
            humidity_setpoint: Update::NoChange,
        }
    }
}

impl Default for TerrariumConfigUpdate {
    fn default() -> (r: TerrariumConfigUpdate)
        ensures
            r.name is NoChange,
            r.wifi is NoChange,
            r.schedule is NoChange,
            r.timezone is NoChange,
            r.influxdb is NoChange,
    {
        TerrariumConfigUpdate {
            name: Update::NoChange,
            wifi: Update::NoChange,
            schedule: Update::NoChange,
            timezone: Update::NoChange,
            influxdb: Update::NoChange,
        }
    }
}

impl TerrariumConfig {
    /// Whether the configuration is what `before` becomes under `update`:
    /// every field is set, cleared or left alone as the update says. A
    /// schedule change works on the schedule that is there, or on an empty one.
    pub open spec fn follows(self, before: TerrariumConfig, update: TerrariumConfigUpdate) -> bool {
        &&& self.name == update.name.applied(before.name)
        &&& self.wifi == update.wifi.applied(before.wifi)
        &&& self.timezone == update.timezone.applied(before.timezone)
        &&& self.influxdb == update.influxdb.applied(before.influxdb)
        &&& match update.schedule {
            Update::SetTo(change) => self.schedule is Some && self.schedule->0.follows(
                before.schedule,
                change,
            ),
            Update::Clear => self.schedule is None,
            Update::NoChange => self.schedule == before.schedule,
        }
    }

    /// Whether two configurations say the same.
    pub open spec fn same_as(self, other: TerrariumConfig) -> bool {
        &&& self.name == other.name
        &&& self.wifi == other.wifi
        &&& self.schedule is Some <==> other.schedule is Some
        &&& self.schedule is Some ==> self.schedule->0.same_as(other.schedule->0)
        &&& self.timezone == other.timezone
        &&& self.influxdb == other.influxdb
    }

    /// The configuration of a device that was never configured: the name
    /// `oasis`, the default schedule, and nothing else.
    pub fn new_with_reasonable_defaults() -> (r: TerrariumConfig)
        ensures
            r.name is Some,
            r.name->0@ == "oasis"@,
            r.wifi is None,
            r.schedule is Some,
            r.schedule->0.is_reasonable_default(),
            r.timezone is None,
            r.influxdb is None,
    {
        TerrariumConfig {
            name: Some(String::from_str("oasis")),
            wifi: None,
            schedule: Some(Schedule::new_with_reasonable_defaults()),
            timezone: None,
            influxdb: None,
        }
    }
}

impl Default for TerrariumConfig {
    fn default() -> (r: TerrariumConfig)
        ensures
            r.name is None,
            r.wifi is None,
            r.schedule is None,
            r.timezone is None,
            r.influxdb is None,
    {
        TerrariumConfig { name: None, wifi: None, schedule: None, timezone: None, influxdb: None }
    }
}

impl Clone for TerrariumConfig {
    fn clone(&self) -> (r: TerrariumConfig)
        ensures
            r.same_as(*self),
    {
        TerrariumConfig {
            name: match &self.name {
                Some(name) => Some(name.clone()),
                None => None,
            },
            wifi: match &self.wifi {
                Some(wifi) => Some(wifi.clone()),
                None => None,
            },
            schedule: match &self.schedule {
                Some(schedule) => Some(schedule.clone()),
                None => None,
            },
            timezone: match &self.timezone {
                Some(timezone) => Some(timezone.clone()),
                None => None,
            },
            influxdb: match &self.influxdb {
                Some(influxdb) => Some(influxdb.clone()),
                None => None,
            },
        }
    }
}

} // verus!
