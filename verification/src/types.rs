//! The values that pass between the controller, the hardware and the network.

use crate::binary32::Binary32;
use vstd::prelude::*;
use vstd::string::StringExecFns;

verus! {

/// One of the three outputs that the controller drives.
#[derive(PartialEq, Eq, Structural, Hash, Debug, Clone, Copy)]
pub enum Actuator {
    Lights,
    Fans,
    Mist,
}

impl Actuator {
    /// The name by which requests refer to the actuator.
    pub open spec fn spec_name(self) -> Seq<char> {
        match self {
            Actuator::Lights => "lights"@,
            Actuator::Fans => "fans"@,
            Actuator::Mist => "mist"@,
        }
    }

    /// The actuator that a request calls `name`, if there is one.
    pub open spec fn named(name: Seq<char>) -> Option<Actuator> {
        if name == "lights"@ {
            Some(Actuator::Lights)
        } else if name == "fans"@ {
            Some(Actuator::Fans)
        } else if name == "mist"@ {
            Some(Actuator::Mist)
        } else {
            None
        }
    }

    pub fn name(&self) -> (r: &'static str)
        ensures
            r@ == self.spec_name(),
    {
        match self {
            Actuator::Lights => "lights",
            Actuator::Fans => "fans",
            Actuator::Mist => "mist",
        }
    }

    pub fn from_name(name: &str) -> (r: Option<Actuator>)
        ensures
            r == Self::named(name@),
    {
        let given = String::from_str(name);
        if given == String::from_str("lights") {
            Some(Actuator::Lights)
        } else if given == String::from_str("fans") {
            Some(Actuator::Fans)
        } else if given == String::from_str("mist") {
            Some(Actuator::Mist)
        } else {
            None
        }
    }
}

/// Every actuator is found again by its own name.
pub proof fn lemma_name_round_trip(actuator: Actuator)
    ensures
        Actuator::named(actuator.spec_name()) == Some(actuator),
{
    reveal_strlit("lights");
    reveal_strlit("fans");
    reveal_strlit("mist");
    assert("lights"@.len() == 6);
    assert("fans"@.len() == 4);
    assert("mist"@[0] == 'm');
    assert("fans"@[0] == 'f');
}

/// One reading of the ambient sensor.
#[derive(Clone, Copy, Debug, PartialEq, Eq, Structural)]
pub struct SensorValues {
    /// Temperature in degrees Celsius.
    pub temp: Binary32,
    /// Relative humidity, a number between zero and one.
    pub humid: Binary32,
}

/// The state that the controller wants the three actuators to be in.
#[derive(Clone, Copy, Debug, PartialEq, Eq, Structural)]
pub struct ActuatorValues {
    /// Light intensity, a number between zero and one.
    pub lights: Binary32,
    pub mist: bool,
    pub fans: bool,
}

impl ActuatorValues {
    /// Everything off.
    pub open spec fn off() -> ActuatorValues {
        ActuatorValues { lights: Binary32 { bits: 0 }, mist: false, fans: false }
    }

    /// The same values but for the lights.
    pub open spec fn with_lights(self, lights: Binary32) -> ActuatorValues {
        ActuatorValues { lights, mist: self.mist, fans: self.fans }
    }

    /// The same values but for the mister.
    pub open spec fn with_mist(self, mist: bool) -> ActuatorValues {
        ActuatorValues { lights: self.lights, mist, fans: self.fans }
    }

    /// The same values but for the fans.
    pub open spec fn with_fans(self, fans: bool) -> ActuatorValues {
        ActuatorValues { lights: self.lights, mist: self.mist, fans }
    }
}

impl Default for ActuatorValues {
    fn default() -> (r: ActuatorValues)
        ensures
            r == ActuatorValues::off(),
    {
        ActuatorValues { lights: Binary32::zero(), mist: false, fans: false }
    }
}

/// What a state query reports: the actuators, and the sensors as far as they
/// could be read.
#[derive(Clone, Copy, Debug, PartialEq)]
pub struct TerrariumState {
    pub actuators: ActuatorValues,
    pub sensors: Option<SensorValues>,
    /// Temperature of the processor in degrees Celsius.
    pub cpu_temp: Option<Binary32>,
}

/// A value for an actuator: a switch position or a number.
#[derive(PartialEq, Eq, Structural, Debug, Copy, Clone)]
pub enum ActuatorValue {
    Bool(bool),
    Float(Binary32),
}

/// A request to hold one actuator at a value for some time, whatever the
/// schedule says.
#[derive(PartialEq, Eq, Structural, Debug, Clone, Copy)]
pub struct ActuatorOverride {
    pub actuator: Actuator,
    pub value: ActuatorValue,
    pub duration_secs: u32,
}

/// An override as a request spells it, with the actuator given by name.
#[derive(PartialEq, Debug)]
pub struct NamedOverride {
    pub actuator: String,
    pub value: ActuatorValue,
    pub duration_secs: u32,
}

impl NamedOverride {
    /// The override that the request stands for, if its actuator exists.
    pub open spec fn resolved(self) -> Option<ActuatorOverride> {
        match Actuator::named(self.actuator@) {
            Some(actuator) => Some(
                ActuatorOverride { actuator, value: self.value, duration_secs: self.duration_secs },
            ),
            None => None,
        }
    }

    pub fn resolve(&self) -> (r: Option<ActuatorOverride>)
        ensures
            r == self.resolved(),
    {
        match Actuator::from_name(self.actuator.as_str()) {
            Some(actuator) => Some(
                ActuatorOverride { actuator, value: self.value, duration_secs: self.duration_secs },
            ),
            None => None,
        }
    }
}

/// A control command: the overrides of one request, in the order given.
#[derive(PartialEq, Debug)]
pub struct ActuatorOverrideSet {
    pub updates: Vec<ActuatorOverride>,
}

} // verus!
