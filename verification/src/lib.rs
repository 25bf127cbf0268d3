//! Control logic for a small terrarium: a daily schedule, humidity feedback and
//! short-lived manual overrides are reconciled into one command for the lights,
//! the mister and the fans.
//!
//! The pieces, leaves first:
//!
//! - `binary32` and `time`: the numbers and the times of day that everything
//!   else is made of;
//! - `types`, `error`, `config`: the values that pass between the controller,
//!   the hardware and the network, and the configuration with its updates;
//! - `schedule`: what a schedule asks for at a time of day;
//! - `overrides`: the pending manual overrides and their expiry;
//! - `terrarium`: the hardware as the controller sees it;
//! - `controller`: the control loop, which composes the three and writes to
//!   the hardware, with `clock` for the time;
//! - `effects`, `reset`, `connectivity`: what the tasks beside the control
//!   loop decide between their waits;
//! - `influxdb`, `discovery`, `client`: what is recorded of a terrarium, how
//!   terrariums are found, and the commands of the command-line client.
//!
//! Every function is verified against its contract, but for the few in `clock`
//! and `connectivity` that call the system clock, the time zone database and
//! the random number generator.

pub mod binary32;
pub mod client;
pub mod clock;
pub mod config;
pub mod connectivity;
pub mod controller;
pub mod discovery;
pub mod effects;
pub mod error;
pub mod influxdb;
pub mod overrides;
pub mod reset;
pub mod schedule;
pub mod terrarium;
pub mod time;
pub mod types;
