//! The hardware as the controller sees it, and a stand-in for it that lives in
//! memory.

use crate::binary32::Binary32;
use crate::types::{ActuatorValues, SensorValues, TerrariumState};
use vstd::prelude::*;

verus! {

/// Bit pattern of the temperature that the stand-in starts with, 22 degrees.
pub const FAKE_TEMPERATURE_BITS: u32 = 0x41B0_0000;

/// Bit pattern of the humidity that the stand-in starts with, the
/// single-precision number nearest to 0.8.
pub const FAKE_HUMIDITY_BITS: u32 = 0x3F4C_CCCD;

/// What the controller can do with a terrarium: drive the lights, the mister
/// and the fans, and read the sensors.
///
/// The contracts follow what is asked of the hardware, not what the hardware
/// does with it: a driver that fails to carry a request out still has been
/// asked. The lights are the exception in one respect: `get_lights` reports the
/// intensity that was last asked for, which is all that is known of a light
/// that may still be fading. The getters of mister and fans and the sensor
/// reads promise nothing about what they return.
///
/// What is proved of the controller holds of a terrarium that keeps these
/// contracts. `FakeTerrarium` is proved to; a driver for real hardware has
/// to be read against them.
pub trait Terrarium {
    /// The values that were last asked of the actuators. An implementation
    /// keeps track of them.
    spec fn requested(&self) -> ActuatorValues;

    fn set_lights(&mut self, val: Binary32)
        ensures
            final(self).requested() == old(self).requested().with_lights(val),
    ;

    /// Like `set_lights`, but the lights move to the new intensity over
    /// `fade_ms` milliseconds. The call returns at once.
    fn set_lights_with_fade(&mut self, val: Binary32, fade_ms: i32)
        ensures
            final(self).requested() == old(self).requested().with_lights(val),
    ;

    fn get_lights(&self) -> (r: Binary32)
        ensures
            r == self.requested().lights,
    ;

    fn set_mist(&mut self, on: bool)
        ensures
            final(self).requested() == old(self).requested().with_mist(on),
    ;

    fn get_mist(&self) -> bool;

    fn set_fans(&mut self, on: bool)
        ensures
            final(self).requested() == old(self).requested().with_fans(on),
    ;

    fn get_fans(&self) -> bool;

    /// Reads temperature and humidity; `None` when the sensor gives nothing.
    fn read_sensors(&mut self) -> (r: Option<SensorValues>)
        ensures
            final(self).requested() == old(self).requested(),
    ;

    /// Reads the temperature of the processor; `None` when it is not known.
    fn read_cpu_temp(&mut self) -> (r: Option<Binary32>)
        ensures
            final(self).requested() == old(self).requested(),
    ;
}

/// The actuators as they were last set and the sensors as far as they can be
/// read.
pub fn get_terrarium_state<T: Terrarium>(t: &mut T) -> (r: TerrariumState)
    ensures
        r.actuators.lights == old(t).requested().lights,
        final(t).requested() == old(t).requested(),
{
    let lights = t.get_lights();
    let mist = t.get_mist();
    let fans = t.get_fans();
    let sensors = t.read_sensors();
    let cpu_temp = t.read_cpu_temp();
    TerrariumState { actuators: ActuatorValues { lights, mist, fans }, sensors, cpu_temp }
}

/// A terrarium that lives in memory: what is set can be read back, and the
/// sensors read what `state` holds.
pub struct FakeTerrarium {
    pub state: TerrariumState,
}

impl FakeTerrarium {
    /// The state in which the stand-in starts: everything off, 22 degrees at
    /// a humidity of eight tenths, and no processor temperature.
    pub open spec fn initial() -> TerrariumState {
        TerrariumState {
            actuators: ActuatorValues::off(),
            sensors: Some(
                SensorValues {
                    temp: Binary32 { bits: FAKE_TEMPERATURE_BITS },
                    humid: Binary32 { bits: FAKE_HUMIDITY_BITS },
                },
            ),
            cpu_temp: None,
        }
    }

    pub fn new() -> (r: FakeTerrarium)
        ensures
            r.state == Self::initial(),
    {
        FakeTerrarium {
            state: TerrariumState {
                actuators: ActuatorValues::default(),
                sensors: Some(
                    SensorValues {
                        temp: Binary32::from_bits(FAKE_TEMPERATURE_BITS),
                        humid: Binary32::from_bits(FAKE_HUMIDITY_BITS),
                    },
                ),
                cpu_temp: None,
            },
        }
    }
}

impl Default for FakeTerrarium {
    fn default() -> (r: FakeTerrarium)
        ensures
            r.state == FakeTerrarium::initial(),
    {
        Self::new()
    }
}

impl Terrarium for FakeTerrarium {
    open spec fn requested(&self) -> ActuatorValues {
        self.state.actuators
    }

    fn set_lights(&mut self, val: Binary32)
        ensures
            final(self).state.sensors == old(self).state.sensors,
            final(self).state.cpu_temp == old(self).state.cpu_temp,
    {
        self.set_lights_with_fade(val, 0);
    }

    fn set_lights_with_fade(&mut self, val: Binary32, _fade_ms: i32)
        ensures
            final(self).state.sensors == old(self).state.sensors,
            final(self).state.cpu_temp == old(self).state.cpu_temp,
    {
        self.state.actuators.lights = val;
    }

    fn get_lights(&self) -> (r: Binary32) {
        self.state.actuators.lights
    }

    fn set_mist(&mut self, on: bool)
        ensures
            final(self).state.sensors == old(self).state.sensors,
            final(self).state.cpu_temp == old(self).state.cpu_temp,
    {
        self.state.actuators.mist = on;
    }

    fn get_mist(&self) -> (r: bool)
        ensures
            r == self.state.actuators.mist,
    {
        self.state.actuators.mist
    }

    fn set_fans(&mut self, on: bool)
        ensures
            final(self).state.sensors == old(self).state.sensors,
            final(self).state.cpu_temp == old(self).state.cpu_temp,
    {
        self.state.actuators.fans = on;
    }

    fn get_fans(&self) -> (r: bool)
        ensures
            r == self.state.actuators.fans,
    {
        self.state.actuators.fans
    }

    fn read_sensors(&mut self) -> (r: Option<SensorValues>)
        ensures
            r == old(self).state.sensors,
            *final(self) == *old(self),
    {
        self.state.sensors
    }

    fn read_cpu_temp(&mut self) -> (r: Option<Binary32>)
        ensures
            r == old(self).state.cpu_temp,
            *final(self) == *old(self),
    {
        self.state.cpu_temp
    }
}

} // verus!
