//! A small thermometer service: one shared reading, refreshed by a poller
//! from a one-wire sensor file (or simulated when the sensor is silent), and
//! rendered as an HTML page and an SVG icon.
//!
//! Temperatures are held as whole micro-degrees Celsius (`i64`); "unknown"
//! is `None`.

pub mod text;
pub mod render;
pub mod sensor;
pub mod clock;
pub mod slot;
pub mod poll;
