//! Sensor drivers and the capabilities they expose.

pub mod dht22;
pub mod humidity;
pub mod lm75;
pub mod temperature;
