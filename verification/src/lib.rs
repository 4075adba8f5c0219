//! Reading the text protocol of solar chargers and battery monitors, and
//! collecting what they report into periodic messages for a broker.

pub mod clock;
pub mod collector;
pub mod config;
pub mod decoder;
pub mod field;
pub mod field_laws;
pub mod frame_laws;
pub mod json;
pub mod message;
pub mod mqtt;
pub mod number;
