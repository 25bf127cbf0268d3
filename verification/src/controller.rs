//! The control loop: it owns the hardware, the configuration and the override
//! store, and on every tick composes schedule, humidity feedback and overrides
//! into one command for the actuators.

use crate::binary32::Binary32;
use crate::clock::{
    civil_time_fields, lookup_time_zone, time_from_fields, unix_millis_now, zone_in_force,
};
use crate::config::{HumidityMode, Schedule, TerrariumConfig, TerrariumConfigUpdate, Update};
use crate::error::Error;
use crate::overrides::{
    all_acceptable, all_known, first_invalid, lemma_first_invalid, lemma_override_takes_precedence,
    resolve_overrides, resolved_all, OverrideStore,
};
use crate::terrarium::Terrarium;
use crate::time::TimeOfDay;
use crate::types::{
    Actuator, ActuatorOverride, ActuatorOverrideSet, ActuatorValues, NamedOverride, SensorValues,
};
use vstd::prelude::*;

verus! {

/// The time zone in which the schedule is read when none is configured, or
/// when the configured one is not known.
pub const DEFAULT_TIMEZONE: &'static str = "America/Los_Angeles";

/// Milliseconds to wait between two attempts to get hold of the controller
/// or of the hardware. A task never waits for either while holding on to the
/// processor: it tries, lets others run for this long, and tries again.
pub const LOCK_RETRY_MILLIS: u64 = 5;

/// Milliseconds between two ticks of the control loop.
pub const TICK_PAUSE_MILLIS: u64 = 1;

/// Milliseconds over which the lights move to a new intensity.
pub const LIGHT_FADE_MILLIS: i32 = 100;

impl Schedule {
    /// Whether the schedule makes the mister follow the humidity sensor.
    pub open spec fn follows_sensor(self) -> bool {
        self.mist_mode == HumidityMode::Auto && self.humidity_setpoint is Some
    }

    /// Whether the humidity feedback switches the mister on: the schedule
    /// follows the sensor, the sensor gave a reading, and the humidity read is
    /// below the setpoint.
    pub open spec fn calls_for_mist(self, reading: Option<SensorValues>) -> bool {
        &&& self.follows_sensor()
        &&& reading is Some
        &&& reading->0.humid.num_lt(self.humidity_setpoint->0)
    }
}

impl TerrariumConfig {
    /// Whether a tick reads the humidity sensor.
    pub open spec fn follows_sensor(self) -> bool {
        self.schedule is Some && self.schedule->0.follows_sensor()
    }

    /// What schedule and humidity feedback ask of the actuators at the time
    /// of day `t`, given what the sensor read: nothing without a schedule,
    /// else what the schedule says, with the mister on where the feedback
    /// calls for it.
    pub open spec fn asks_for(self, t: TimeOfDay, reading: Option<SensorValues>) -> ActuatorValues {
        match self.schedule {
            None => ActuatorValues::off(),
            Some(schedule) => if schedule.calls_for_mist(reading) {
                schedule.values_at(t).with_mist(true)
            } else {
                schedule.values_at(t)
            },
        }
    }
}

/// What has been asked of the actuators after a tick that wants them at
/// `want`, when `before` was asked of them so far. The lights are left alone
/// while they are under outside control and where they already are at the
/// wanted intensity; mister and fans are always set.
pub open spec fn written(before: ActuatorValues, want: ActuatorValues, lights_taken: bool)
    -> ActuatorValues {
    ActuatorValues {
        lights: if lights_taken || want.lights.num_eq(before.lights) {
            before.lights
        } else {
            want.lights
        },
        mist: want.mist,
        fans: want.fans,
    }
}

/// Under a schedule that follows the sensor the mister is on exactly when the
/// sensor gave a reading and the humidity read is below the setpoint: a
/// reading at or above the setpoint, and a sensor that gave nothing, leave it
/// off.
pub proof fn lemma_humidity_feedback(
    config: TerrariumConfig,
    t: TimeOfDay,
    reading: Option<SensorValues>,
)
    requires
        config.follows_sensor(),
    ensures
        config.asks_for(t, reading).mist == (reading is Some && reading->0.humid.num_lt(
            config.schedule->0.humidity_setpoint->0,
        )),
        config.asks_for(t, reading).lights == config.schedule->0.values_at(t).lights,
        config.asks_for(t, reading).fans == config.schedule->0.values_at(t).fans,
{
}

/// The controller of one terrarium.
pub struct TerrariumController<T: Terrarium> {
    terrarium: T,
    config: TerrariumConfig,
    active_overrides: OverrideStore,
    external_light_control: bool,
}

impl<T: Terrarium> TerrariumController<T> {
    /// The hardware that the controller drives.
    pub closed spec fn hardware(self) -> T {
        self.terrarium
    }

    /// The configuration that the controller holds.
    pub closed spec fn configuration(self) -> TerrariumConfig {
        self.config
    }

    /// The overrides that are pending.
    pub closed spec fn overrides(self) -> OverrideStore {
        self.active_overrides
    }

    /// Whether the lights are under outside control, so that a tick leaves
    /// them alone.
    pub closed spec fn lights_taken(self) -> bool {
        self.external_light_control
    }

    /// Whether two controllers differ in nothing but their hardware.
    pub open spec fn same_but_hardware(self, other: Self) -> bool {
        &&& self.configuration() == other.configuration()
        &&& self.overrides() == other.overrides()
        &&& self.lights_taken() == other.lights_taken()
    }

    /// What a tick at `now`, at the time of day `t`, asks of the actuators
    /// when the sensor read `reading`: what schedule and feedback ask for,
    /// but for each actuator with an override that still holds the value of
    /// the override.
    pub open spec fn composed(self, now: i64, t: TimeOfDay, reading: Option<SensorValues>)
        -> ActuatorValues {
        self.overrides().purged(now).overriding(self.configuration().asks_for(t, reading))
    }

    /// Whether `after` is this controller after a tick at `now`, at the time
    /// of day `t`, in which the sensor read `reading`.
    pub open spec fn ticked(
        self,
        after: Self,
        now: i64,
        t: TimeOfDay,
        reading: Option<SensorValues>,
    ) -> bool {
        &&& after.configuration() == self.configuration()
        &&& after.lights_taken() == self.lights_taken()
        &&& after.overrides() == self.overrides().purged(now)
        &&& after.hardware().requested() == written(
            self.hardware().requested(),
            self.composed(now, t, reading),
            self.lights_taken(),
        )
    }

    /// Whether `after` is this controller after the overrides `entries` were
    /// taken in at `now`, one after the other up to the first that is not
    /// acceptable, and `r` the answer to the command: a refusal for an empty
    /// command, what is wrong with the first override that is not acceptable
    /// if there is one, and success if there is none.
    pub open spec fn took_in(
        self,
        after: Self,
        entries: Seq<ActuatorOverride>,
        now: i64,
        r: Result<(), Error>,
    ) -> bool {
        let stop = first_invalid(entries, 0);
        &&& after.overrides() == self.overrides().with_all(entries.take(stop), now)
        &&& after.hardware() == self.hardware()
        &&& after.configuration() == self.configuration()
        &&& after.lights_taken() == self.lights_taken()
        &&& r == if entries.len() == 0 {
            Err::<(), Error>(Error::EmptyControlRequest)
        } else if stop == entries.len() {
            Ok::<(), Error>(())
        } else {
            Err::<(), Error>(entries[stop].violation()->0)
        }
    }

    pub fn new(terrarium: T, config: TerrariumConfig) -> (r: Self)
        ensures
            r.hardware() == terrarium,
            r.configuration() == config,
            r.overrides() == OverrideStore::empty(),
            !r.lights_taken(),
    {
        TerrariumController {
            terrarium,
            config,
            active_overrides: OverrideStore::new(),
            external_light_control: false,
        }
    }

    /// Whether the lights are under outside control.
    pub fn lights_taken_over(&self) -> (r: bool)
        ensures
            r == self.lights_taken(),
    {
        self.external_light_control
    }

    /// Puts the lights under outside control: until `release_lights` no tick
    /// touches them. Two takeovers without a release between them are a
    /// mistake of the caller, which the contract rules out.
    pub fn takeover_lights(&mut self)
        requires
            !old(self).lights_taken(),
        ensures
            final(self).lights_taken(),
            final(self).hardware() == old(self).hardware(),
            final(self).configuration() == old(self).configuration(),
            final(self).overrides() == old(self).overrides(),
    {
        self.external_light_control = true;
    }

    /// Puts the lights under outside control unless they already are, which
    /// is an error that leaves everything as it was.
    pub fn try_takeover_lights(&mut self) -> (r: Result<(), Error>)
        ensures
            old(self).lights_taken() ==> r == Err::<(), Error>(Error::LightsAlreadyTaken)
                && *final(self) == *old(self),
            !old(self).lights_taken() ==> r is Ok && final(self).lights_taken(),
            final(self).hardware() == old(self).hardware(),
            final(self).configuration() == old(self).configuration(),
            final(self).overrides() == old(self).overrides(),
    {
        if self.external_light_control {
            return Err(Error::LightsAlreadyTaken);
        }
        self.takeover_lights();
        Ok(())
    }

    /// Hands the lights back to the control loop.
    pub fn release_lights(&mut self)
        ensures
            !final(self).lights_taken(),
            final(self).hardware() == old(self).hardware(),
            final(self).configuration() == old(self).configuration(),
            final(self).overrides() == old(self).overrides(),
    {
        self.external_light_control = false;
    }

    pub fn terrarium(&self) -> (r: &T)
        ensures
            *r == self.hardware(),
    {
        &self.terrarium
    }

    /// The hardware, to be driven directly.
    pub fn terrarium_mut(&mut self) -> (r: &mut T)
        ensures
            *r == old(self).hardware(),
            final(self).hardware() == *final(r),
            old(self).same_but_hardware(*final(self)),
    {
        &mut self.terrarium
    }

    pub fn config(&self) -> (r: &TerrariumConfig)
        ensures
            *r == self.configuration(),
    {
        &self.config
    }

    /// The overrides that are pending.
    pub fn pending_overrides(&self) -> (r: &OverrideStore)
        ensures
            *r == self.overrides(),
    {
        &self.active_overrides
    }

    /// Carries a configuration update out, all of it or nothing: an update
    /// that breaks a rule is refused as a whole and changes nothing.
    pub fn update_config(&mut self, update: &TerrariumConfigUpdate) -> (r: Result<(), Error>)
        ensures
            r is Ok <==> update.is_valid(),
            r is Err ==> update.violation() == Some(r->Err_0),
            r is Err ==> *final(self) == *old(self),
            r is Ok ==> final(self).configuration().follows(old(self).configuration(), *update),
            final(self).hardware() == old(self).hardware(),
            final(self).overrides() == old(self).overrides(),
            final(self).lights_taken() == old(self).lights_taken(),
    {
        match update.validate() {
            Ok(()) => {},
            Err(e) => {
                return Err(e);
            },
        }
        match &update.name {
            Update::SetTo(name) => self.config.name = Some(name.clone()),
            Update::Clear => self.config.name = None,
            Update::NoChange => {},
        }
        match &update.wifi {
            Update::SetTo(wifi) => self.config.wifi = Some(wifi.clone()),
            Update::Clear => self.config.wifi = None,
            Update::NoChange => {},
        }
        match &update.schedule {
            Update::SetTo(schedule_update) => {
                let mut schedule = match self.config.schedule.take() {
                    Some(schedule) => schedule,
                    None => Schedule::default(),
                };
                schedule.update(schedule_update);
                self.config.schedule = Some(schedule);
            },
            Update::Clear => self.config.schedule = None,
            Update::NoChange => {},
        }
        match &update.timezone {
            Update::SetTo(timezone) => self.config.timezone = Some(timezone.clone()),
            Update::Clear => self.config.timezone = None,
            Update::NoChange => {},
        }
        match &update.influxdb {
            Update::SetTo(influxdb) => self.config.influxdb = Some(influxdb.clone()),
            Update::Clear => self.config.influxdb = None,
            Update::NoChange => {},
        }
        Ok(())
    }

    /// What schedule and humidity feedback ask of the actuators at the time
    /// of day `t`, given what the sensor read.
    pub fn desired_values(&self, t: TimeOfDay, reading: Option<SensorValues>) -> (r: ActuatorValues)
        ensures
            r == self.configuration().asks_for(t, reading),
    {
        match &self.config.schedule {
            None => ActuatorValues::default(),
            Some(schedule) => {
                let mut values = schedule.evaluate(t);
                if let HumidityMode::Auto = schedule.mist_mode {
                    if let Some(setpoint) = schedule.humidity_setpoint {
                        if let Some(sensor_values) = reading {
                            if sensor_values.humid.lt(&setpoint) {
                                values.mist = true;
                            }
                        }
                    }
                }
                values
            },
        }
    }

    /// Whether a tick reads the humidity sensor: there is a schedule, it is in
    /// automatic mode, and it has a setpoint.
    pub fn reads_sensor(&self) -> (r: bool)
        ensures
            r == self.configuration().follows_sensor(),
    {
        match &self.config.schedule {
            None => false,
            Some(schedule) => match schedule.mist_mode {
                HumidityMode::Auto => schedule.humidity_setpoint.is_some(),
                HumidityMode::Manual => false,
            },
        }
    }

    /// One tick at `now`, in milliseconds since the Unix epoch, which in the
    /// configured time zone is the time of day `t`. The tick reads the sensor
    /// if the schedule follows it, drops the overrides whose expiry has
    /// passed, and asks the hardware for what schedule, feedback and the
    /// remaining overrides come to.
    pub fn run_at(&mut self, now: i64, t: TimeOfDay)
        ensures
            exists|reading: Option<SensorValues>| #[trigger]
                old(self).ticked(*final(self), now, t, reading),
            !old(self).configuration().follows_sensor() ==> old(self).ticked(
                *final(self),
                now,
                t,
                None,
            ),
    {
        let reading = if self.reads_sensor() {
            self.terrarium.read_sensors()
        } else {
            None
        };
        let base = self.desired_values(t, reading);
        self.active_overrides.purge_expired(now);
        let values = self.active_overrides.apply(base);
        if !self.external_light_control {
            let current: Binary32 = self.terrarium.get_lights();
            if !values.lights.same_number(&current) {
                self.terrarium.set_lights_with_fade(values.lights, LIGHT_FADE_MILLIS);
            }
        }
        self.terrarium.set_mist(values.mist);
        self.terrarium.set_fans(values.fans);
        assert(old(self).ticked(*self, now, t, reading));
    }

    /// Takes the overrides of a control command in at `now`, in milliseconds
    /// since the Unix epoch, one after the other, up to the first that is not
    /// acceptable. An empty command is refused.
    pub fn handle_control_cmd_at(&mut self, update_data: &ActuatorOverrideSet, now: i64) -> (r:
        Result<(), Error>)
        ensures
            old(self).took_in(*final(self), update_data.updates@, now, r),
            r is Ok <==> update_data.updates@.len() > 0 && all_acceptable(update_data.updates@),
            r is Ok ==> final(self).overrides() == old(self).overrides().with_all(
                update_data.updates@,
                now,
            ),
            update_data.updates@.len() == 0 ==> r == Err::<(), Error>(Error::EmptyControlRequest),
            update_data.updates@.len() > 0 && r is Err ==> update_data.updates@[first_invalid(
                update_data.updates@,
                0,
            )].violation() == Some(r->Err_0),
            final(self).overrides() == old(self).overrides().with_all(
                update_data.updates@.take(first_invalid(update_data.updates@, 0)),
                now,
            ),
            final(self).hardware() == old(self).hardware(),
            final(self).configuration() == old(self).configuration(),
            final(self).lights_taken() == old(self).lights_taken(),
    {
        let ghost entries = update_data.updates@;
        proof {
            lemma_first_invalid(entries, 0);
        }
        if update_data.updates.len() == 0 {
            assert(entries.take(0) =~= Seq::empty());
            return Err(Error::EmptyControlRequest);
        }
        let mut i: usize = 0;
        assert(entries.take(0) =~= Seq::empty());
        while i < update_data.updates.len()
            invariant
                entries == update_data.updates@,
                i <= entries.len(),
                first_invalid(entries, 0) == first_invalid(entries, i as int),
                self.active_overrides == old(self).overrides().with_all(entries.take(i as int), now),
                self.terrarium == old(self).hardware(),
                self.config == old(self).configuration(),
                self.external_light_control == old(self).lights_taken(),
            decreases entries.len() - i,
        {
            match self.active_overrides.insert(&update_data.updates[i], now) {
                Ok(()) => {},
                Err(e) => {
                    return Err(e);
                },
            }
            proof {
                assert(entries.take(i + 1).drop_last() =~= entries.take(i as int));
                assert(entries.take(i + 1).last() == entries[i as int]);
            }
            i = i + 1;
        }
        assert(entries.take(entries.len() as int) =~= entries);
        Ok(())
    }

    /// Takes the overrides of a request in at `now`, in milliseconds since
    /// the Unix epoch, as `handle_control_cmd_at` does, once the actuator of
    /// every one of them is found. A request that names an actuator that does
    /// not exist is refused as a whole and changes nothing.
    pub fn handle_control_request_at(&mut self, requests: &Vec<NamedOverride>, now: i64) -> (r:
        Result<(), Error>)
        ensures
            !all_known(requests@) ==> r == Err::<(), Error>(Error::UnknownActuator),
            !all_known(requests@) ==> *final(self) == *old(self),
            all_known(requests@) ==> old(self).took_in(
                *final(self),
                resolved_all(requests@),
                now,
                r,
            ),
            all_known(requests@) ==> ({
                let entries = resolved_all(requests@);
                &&& r is Ok <==> entries.len() > 0 && all_acceptable(entries)
                &&& entries.len() == 0 ==> r == Err::<(), Error>(Error::EmptyControlRequest)
                &&& entries.len() > 0 && r is Err ==> entries[first_invalid(
                    entries,
                    0,
                )].violation() == Some(r->Err_0)
                &&& final(self).overrides() == old(self).overrides().with_all(
                    entries.take(first_invalid(entries, 0)),
                    now,
                )
            }),
            final(self).hardware() == old(self).hardware(),
            final(self).configuration() == old(self).configuration(),
            final(self).lights_taken() == old(self).lights_taken(),
    {
        match resolve_overrides(requests) {
            Err(e) => Err(e),
            Ok(update_data) => {
                assert(update_data.updates@ =~= resolved_all(requests@));
                self.handle_control_cmd_at(&update_data, now)
            },
        }
    }

    /// Takes the overrides of a request in, as `handle_control_request_at`
    /// does, at the time that the system clock shows. The clock is read only
    /// where an override is to be taken in: a request that names an actuator
    /// that does not exist, an empty request, and one whose first override is
    /// not acceptable are refused whatever the clock says. Where the clock is
    /// read and gives no time, nothing is taken in.
    pub fn handle_control_request(&mut self, requests: &Vec<NamedOverride>) -> (r: Result<
        (),
        Error,
    >)
        ensures
            !all_known(requests@) ==> r == Err::<(), Error>(Error::UnknownActuator),
            all_known(requests@) && requests@.len() == 0 ==> r == Err::<(), Error>(
                Error::EmptyControlRequest,
            ),
            all_known(requests@) && requests@.len() > 0 && first_invalid(
                resolved_all(requests@),
                0,
            ) == 0 ==> r == Err::<(), Error>(resolved_all(requests@)[0].violation()->0),
            !all_known(requests@) || requests@.len() == 0 || first_invalid(
                resolved_all(requests@),
                0,
            ) == 0 ==> *final(self) == *old(self),
            all_known(requests@) ==> (r == Err::<(), Error>(Error::ClockUnavailable) && *final(self)
                == *old(self)) || (exists|now: i64| #[trigger]
                old(self).took_in(*final(self), resolved_all(requests@), now, r)),
            r is Ok ==> requests@.len() > 0 && all_known(requests@) && all_acceptable(
                resolved_all(requests@),
            ),
            r is Ok ==> exists|now: i64|
                final(self).overrides() == #[trigger] old(self).overrides().with_all(
                    resolved_all(requests@),
                    now,
                ),
            final(self).hardware() == old(self).hardware(),
            final(self).configuration() == old(self).configuration(),
            final(self).lights_taken() == old(self).lights_taken(),
    {
        match resolve_overrides(requests) {
            Err(e) => Err(e),
            Ok(update_data) => {
                assert(update_data.updates@ =~= resolved_all(requests@));
                self.handle_control_cmd(&update_data)
            },
        }
    }

    /// Takes the overrides of a control command in, as `handle_control_cmd_at`
    /// does, at the time that the system clock shows. They take effect with
    /// the next tick. The clock is read only where an override is to be taken
    /// in: an empty command, and one whose first override is not acceptable,
    /// are refused whatever the clock says. Where the clock is read and gives
    /// no time, nothing is taken in.
    pub fn handle_control_cmd(&mut self, update_data: &ActuatorOverrideSet) -> (r: Result<
        (),
        Error,
    >)
        ensures
            update_data.updates@.len() == 0 ==> r == Err::<(), Error>(Error::EmptyControlRequest),
            update_data.updates@.len() > 0 && first_invalid(update_data.updates@, 0) == 0 ==> r
                == Err::<(), Error>(update_data.updates@[0].violation()->0),
            update_data.updates@.len() == 0 || first_invalid(update_data.updates@, 0) == 0
                ==> *final(self) == *old(self),
            (r == Err::<(), Error>(Error::ClockUnavailable) && *final(self) == *old(self)) || (
            exists|now: i64| #[trigger]
                old(self).took_in(*final(self), update_data.updates@, now, r)),
            r is Ok ==> update_data.updates@.len() > 0 && all_acceptable(update_data.updates@),
            r is Ok ==> exists|now: i64|
                final(self).overrides() == #[trigger] old(self).overrides().with_all(
                    update_data.updates@,
                    now,
                ),
            final(self).hardware() == old(self).hardware(),
            final(self).configuration() == old(self).configuration(),
            final(self).lights_taken() == old(self).lights_taken(),
    {
        let ghost entries = update_data.updates@;
        proof {
            lemma_first_invalid(entries, 0);
            assert(entries.take(0) =~= Seq::empty());
        }
        if update_data.updates.len() == 0 {
            let r = Err(Error::EmptyControlRequest);
            assert(old(self).took_in(*self, entries, 0, r));
            return r;
        }
        match update_data.updates[0].validate() {
            Ok(()) => {},
            Err(e) => {
                let r = Err(e);
                assert(old(self).took_in(*self, entries, 0, r));
                return r;
            },
        }
        match unix_millis_now() {
            None => Err(Error::ClockUnavailable),
            Some(now) => {
                let r = self.handle_control_cmd_at(update_data, now);
                proof {
                    if r is Ok {
                        assert(entries.take(entries.len() as int) =~= entries);
                    }
                }
                r
            },
        }
    }

    /// The configured time zone if the database knows it, else the default
    /// time zone if the database knows that. Both are looked up; which of
    /// the two it is, `zone_in_force` says.
    fn get_timezone(&self) -> (r: Option<jiff::tz::TimeZone>) {
        let configured = match &self.config.timezone {
            Some(name) => lookup_time_zone(name.as_str()),
            None => None,
        };
        let fallback = lookup_time_zone(DEFAULT_TIMEZONE);
        zone_in_force(configured, fallback)
    }

    /// The time of day that it is at `now` in the time zone of the
    /// controller.
    fn get_local_time(&self, now: i64) -> (r: Option<TimeOfDay>) {
        match self.get_timezone() {
            None => None,
            Some(zone) => match civil_time_fields(now, &zone) {
                None => None,
                Some((hour, minute, second, nanosecond)) => time_from_fields(
                    hour,
                    minute,
                    second,
                    nanosecond,
                ),
            },
        }
    }

    /// One tick at the time that the system clock shows, read in the
    /// configured time zone, or in the default one where none is configured
    /// or the configured one is not known. Without a usable clock or time
    /// zone the tick does nothing and says so.
    pub fn run(&mut self) -> (r: Result<(), Error>)
        ensures
            r is Err ==> *final(self) == *old(self),
            r is Err ==> r->Err_0 == Error::ClockUnavailable || r->Err_0
                == Error::TimeZoneUnavailable,
            r is Ok ==> exists|now: i64, t: TimeOfDay, reading: Option<SensorValues>| #[trigger]
                old(self).ticked(*final(self), now, t, reading),
    {
        let now: i64 = match unix_millis_now() {
            Some(now) => now,
            None => {
                return Err(Error::ClockUnavailable);
            },
        };
        let t = match self.get_local_time(now) {
            Some(t) => t,
            None => {
                return Err(Error::TimeZoneUnavailable);
            },
        };
        self.run_at(now, t);
        Ok(())
    }
}

/// What a tick does with the overrides. The store keeps exactly those that
/// still hold. The mister and the fans are asked for the value of their
/// override while it holds, and for what schedule and feedback ask for once
/// its expiry has passed or where there is none. The same goes for the lights
/// while they are not under outside control, except that they are left as
/// they are where they already are at the wanted intensity; under outside
/// control they are not touched.
pub proof fn lemma_tick_honours_overrides<T: Terrarium>(
    before: TerrariumController<T>,
    after: TerrariumController<T>,
    now: i64,
    t: TimeOfDay,
    reading: Option<SensorValues>,
)
    requires
        before.ticked(after, now, t, reading),
    ensures
        forall|actuator: Actuator| #[trigger]
            after.overrides().holds(actuator) <==> before.overrides().live(actuator, now),
        after.hardware().requested().mist == if before.overrides().live(Actuator::Mist, now) {
            before.overrides().mist->0.value
        } else {
            before.configuration().asks_for(t, reading).mist
        },
        after.hardware().requested().fans == if before.overrides().live(Actuator::Fans, now) {
            before.overrides().fans->0.value
        } else {
            before.configuration().asks_for(t, reading).fans
        },
        before.lights_taken() ==> after.hardware().requested().lights
            == before.hardware().requested().lights,
        !before.lights_taken() ==> ({
            let want = if before.overrides().live(Actuator::Lights, now) {
                before.overrides().lights->0.value
            } else {
                before.configuration().asks_for(t, reading).lights
            };
            let got = after.hardware().requested().lights;
            got == want || (got == before.hardware().requested().lights && want.num_eq(got))
        }),
{
    assert forall|actuator: Actuator| #[trigger]
        after.overrides().holds(actuator) <==> before.overrides().live(actuator, now) by {
        lemma_override_takes_precedence(
            before.overrides(),
            before.configuration().asks_for(t, reading),
            now,
            actuator,
        );
    }
}

} // verus!
