//! Where the time series of sensor readings is sent, and what is sent.

use crate::binary32::{Binary32, ONE_BITS};
use crate::types::TerrariumState;
use vstd::prelude::*;
use vstd::string::StringExecFns;

verus! {

/// Bit pattern of the number that stands for a reading that is missing,
/// minus one.
pub const MISSING_READING_BITS: u32 = 0xBF80_0000;

/// The address of an InfluxDB server and what it takes to write to it.
#[derive(PartialEq, Debug)]
pub struct Config {
    pub address: String,
    pub org: String,
    pub bucket: String,
    pub token: String,
}

impl Clone for Config {
    fn clone(&self) -> (r: Config)
        ensures
            r == *self,
    {
        Config {
            address: self.address.clone(),
            org: self.org.clone(),
            bucket: self.bucket.clone(),
            token: self.token.clone(),
        }
    }
}

impl Config {
    /// The address to which points are written.
    pub open spec fn write_url_text(self) -> Seq<char> {
        self.address@ + "/api/v2/write?bucket="@ + self.bucket@ + "&org="@ + self.org@
    }

    /// The value of the authorization header.
    pub open spec fn authorization_text(self) -> Seq<char> {
        "Token "@ + self.token@
    }

    pub fn write_url(&self) -> (r: String)
        ensures
            r@ == self.write_url_text(),
    {
        self.address.clone().concat("/api/v2/write?bucket=").concat(self.bucket.as_str()).concat(
            "&org=",
        ).concat(self.org.as_str())
    }

    pub fn authorization(&self) -> (r: String)
        ensures
            r@ == self.authorization_text(),
    {
        String::from_str("Token ").concat(self.token.as_str())
    }
}

/// One point of the time series, every field a single-precision number.
/// Temperatures are in degrees Celsius and the humidity is a fraction, as
/// the sensors give them.
#[derive(PartialEq, Eq, Structural, Clone, Copy, Debug)]
pub struct TelemetryPoint {
    /// Ambient temperature; minus one without a reading.
    pub temperature: Binary32,
    /// Relative humidity; minus one without a reading.
    pub humidity: Binary32,
    pub lights: Binary32,
    /// One while the mister is on, zero while it is off.
    pub mist: Binary32,
    /// One while the fans are on, zero while they are off.
    pub fans: Binary32,
    /// Temperature of the processor, if it is known.
    pub cpu_temp: Option<Binary32>,
}

/// The number that stands for a switch position.
pub open spec fn switch_number(on: bool) -> Binary32 {
    if on {
        Binary32 { bits: ONE_BITS }
    } else {
        Binary32 { bits: 0 }
    }
}

/// The point that records `state`.
pub open spec fn point_of(state: TerrariumState) -> TelemetryPoint {
    TelemetryPoint {
        temperature: if state.sensors is Some {
            state.sensors->0.temp
        } else {
            Binary32 { bits: MISSING_READING_BITS }
        },
        humidity: if state.sensors is Some {
            state.sensors->0.humid
        } else {
            Binary32 { bits: MISSING_READING_BITS }
        },
        lights: state.actuators.lights,
        mist: switch_number(state.actuators.mist),
        fans: switch_number(state.actuators.fans),
        cpu_temp: state.cpu_temp,
    }
}

fn switch_as_number(on: bool) -> (r: Binary32)
    ensures
        r == switch_number(on),
{
    if on {
        Binary32::from_bits(ONE_BITS)
    } else {
        Binary32::zero()
    }
}

/// The point that records `state`.
pub fn telemetry_point(state: &TerrariumState) -> (r: TelemetryPoint)
    ensures
        r == point_of(*state),
{
    let (temperature, humidity) = match state.sensors {
        Some(readings) => (readings.temp, readings.humid),
        None => (
            Binary32::from_bits(MISSING_READING_BITS),
            Binary32::from_bits(MISSING_READING_BITS),
        ),
    };
    TelemetryPoint {
        temperature,
        humidity,
        lights: state.actuators.lights,
        mist: switch_as_number(state.actuators.mist),
        fans: switch_as_number(state.actuators.fans),
        cpu_temp: state.cpu_temp,
    }
}

} // verus!
