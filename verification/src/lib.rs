//! Core logic of a temperature-sampling firmware: a priority-tiered task
//! scheduler with interrupt-driven wake, a critical-section bus arbiter, a
//! single-wire sensor protocol decoder, and a fusion pipeline that combines
//! per-source readings into one broadcast mean.
//!
//! Hardware access, interrupt plumbing and the async executors live outside
//! this crate; here they are modelled by plain data (a sampled line trace, a
//! transaction outcome, a task identifier) so that every decision the firmware
//! makes is a verified function. Temperatures and humidities are carried as
//! fixed-point integers in tenths of a unit, the resolution the sensors
//! themselves report.

pub mod board;
pub mod i2c;
pub mod sensors;
pub mod temperature;
pub mod work_indicator;
