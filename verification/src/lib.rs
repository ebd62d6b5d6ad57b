//! Typed readings and derived air-quality metrics for PurpleAir sensors.
//!
//! A [`Measurement`] is one reading of a sensor: raw values such as the
//! temperature and the particulate mass of each channel, and the quantities
//! derived from them, foremost the Air Quality Index and the EPA correction
//! of the PM2.5 concentration. A [`LanMeasurement`] is a reading backed by
//! the JSON document that a sensor serves on the local network.
pub mod aqi;
pub mod json;
pub mod lan;
pub mod measurement;
pub mod number;
pub mod sensor;
pub mod timestamp;

pub use lan::LanMeasurement;
pub use measurement::Channel;
pub use measurement::Measurement;
pub use measurement::PmSize;
pub use measurement::PmType;
pub use sensor::LanSensor;
pub use sensor::ReqwestSensor;
