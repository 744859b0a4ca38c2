//! The device kinds that the crate wraps, one module each.

pub mod current_input;
pub mod digital_input;
pub mod digital_output;
pub mod hub;
pub mod humidity_sensor;
pub mod pressure_sensor;
pub mod stepper;
pub mod temperature_sensor;
pub mod voltage_input;
pub mod voltage_output;
pub mod voltage_ratio_input;
