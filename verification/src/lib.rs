//! A verified proportional-integral fan-speed controller core.
//!
//! The library holds the logic of a closed-loop fan controller that talks to
//! its hardware through text-encoded control files: parsing and formatting of
//! the ASCII integer protocol, aggregation of the per-sensor temperature
//! readings, the integral-accumulator update with its anti-windup policy, the
//! setpoint computation, and actuator clamping.  Gains are fixed-point values
//! in milli-units, so that every computation is exact integer arithmetic.
//! All file and thread handling lives outside the library.

pub mod adapter;
pub mod config;
pub mod control;
pub mod errors;
pub mod format;
pub mod parse;
pub mod shared;
pub mod telemetry;
pub mod temperature;
