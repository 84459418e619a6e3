//! A data-quality gate for sensor readings: a measurement model, its decoder,
//! a set-once configuration of two bounds, and the rule that keeps a reading
//! only when it is a Celsius temperature strictly between the bounds.

pub mod config;
pub mod decode;
pub mod encoding;
pub mod filter;
pub mod json;
pub mod measurement;
pub mod number;

pub use crate::measurement::{
    Measurement, MeasurementHumidity, MeasurementObject, MeasurementSensorData,
    MeasurementTemperature, MeasurementTemperatureUnit,
};
