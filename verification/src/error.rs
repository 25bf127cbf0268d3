//! The reasons for which the library turns a request down.

use crate::binary32::Binary32;
use vstd::prelude::*;
use vstd::string::StringExecFns;

verus! {

/// Why a configuration update, a control command or a tick was refused.
#[derive(Debug, Clone, Copy, PartialEq, Eq, Structural)]
pub enum Error {
    /// The device name has more than thirty characters.
    NameTooLong,
    /// The device name is the empty string.
    NameEmpty,
    /// The lighting window does not start before it stops.
    LightWindowNotOrdered,
    /// The scheduled light intensity, given here, is not between zero and one.
    LightIntensityOutOfRange(Binary32),
    /// The humidity setpoint, given here, is below zero or not below the limit.
    HumiditySetpointOutOfRange(Binary32),
    /// A scheduled event repeats until a time that is not after its start.
    RepeatStopNotAfterStart,
    /// A control command without any override.
    EmptyControlRequest,
    /// A control command names an actuator that does not exist.
    UnknownActuator,
    /// The mister was given a number where a switch position is expected.
    ExpectedBoolForMist,
    /// The fans were given a number where a switch position is expected.
    ExpectedBoolForFans,
    /// The lights were given a switch position where a number is expected.
    ExpectedFloatForLights,
    /// The light value of an override, given here, is not between zero and one.
    LightsValueOutOfRange(Binary32),
    /// The lights are already under outside control.
    LightsAlreadyTaken,
    /// The system clock gave no usable time.
    ClockUnavailable,
    /// Neither the configured nor the default time zone is known.
    TimeZoneUnavailable,
}

impl Error {
    /// The text that describes the error to a person.
    pub open spec fn text(self) -> Seq<char> {
        match self {
            Error::NameTooLong => "Name too long"@,
            Error::NameEmpty => "Name can not be empty string"@,
            Error::LightWindowNotOrdered => "light start time should be before stop time"@,
            Error::LightIntensityOutOfRange(_) => "light_intensity must be between 0.0 and 1.0"@,
            Error::HumiditySetpointOutOfRange(_) => "humidity_setpoint must be between 0.0 and 0.95"@,
            Error::RepeatStopNotAfterStart => "Stop time must be after start time"@,
            Error::EmptyControlRequest => "Empty control request"@,
            Error::UnknownActuator => "Unknown actuator"@,
            Error::ExpectedBoolForMist => "Expected bool for mist"@,
            Error::ExpectedBoolForFans => "Expected bool for fan"@,
            Error::ExpectedFloatForLights => "Expected float for lights"@,
            Error::LightsValueOutOfRange(_) => "Lights value should be in the between 0 and 1"@,
            Error::LightsAlreadyTaken => "Lights are already externally-controlled"@,
            Error::ClockUnavailable => "System clock is out of range"@,
            Error::TimeZoneUnavailable => "Default timezone is not available"@,
        }
    }

    /// The number that the error complains about, for the three errors that
    /// carry one.
    pub open spec fn offending(self) -> Option<Binary32> {
        match self {
            Error::LightIntensityOutOfRange(v) => Some(v),
            Error::HumiditySetpointOutOfRange(v) => Some(v),
            Error::LightsValueOutOfRange(v) => Some(v),
            _ => None,
        }
    }

    pub fn message(&self) -> (r: String)
        ensures
            r@ == self.text(),
    {
        let text: &'static str = match self {
            Error::NameTooLong => "Name too long",
            Error::NameEmpty => "Name can not be empty string",
            Error::LightWindowNotOrdered => "light start time should be before stop time",
            Error::LightIntensityOutOfRange(_) => "light_intensity must be between 0.0 and 1.0",
            Error::HumiditySetpointOutOfRange(_) => "humidity_setpoint must be between 0.0 and 0.95",
            Error::RepeatStopNotAfterStart => "Stop time must be after start time",
            Error::EmptyControlRequest => "Empty control request",
            Error::UnknownActuator => "Unknown actuator",
            Error::ExpectedBoolForMist => "Expected bool for mist",
            Error::ExpectedBoolForFans => "Expected bool for fan",
            Error::ExpectedFloatForLights => "Expected float for lights",
            Error::LightsValueOutOfRange(_) => "Lights value should be in the between 0 and 1",
            Error::LightsAlreadyTaken => "Lights are already externally-controlled",
            Error::ClockUnavailable => "System clock is out of range",
            Error::TimeZoneUnavailable => "Default timezone is not available",
        };
        String::from_str(text)
    }

    pub fn offending_value(&self) -> (r: Option<Binary32>)
        ensures
            r == self.offending(),
    {
        match self {
            Error::LightIntensityOutOfRange(v) => Some(*v),
            Error::HumiditySetpointOutOfRange(v) => Some(*v),
            Error::LightsValueOutOfRange(v) => Some(*v),
            _ => None,
        }
    }
}

} // verus!
