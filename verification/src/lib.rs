//! Relay of wireless weather-sensor advertisements towards a time-series sink.
//!
//! A sensor broadcasts two kinds of advertisement: a frequent one with
//! temperature, humidity and battery level, and a rare one with the battery
//! voltage. This crate decodes the advertisements, classifies them, pairs each
//! meteorological reading with the latest voltage reading of the same sensor,
//! and decides what the surrounding event loop has to do next.
//!
//! All measured values are kept as the integers that the sensors send:
//! hundredths of a degree Celsius, hundredths of a percent, millivolts.

pub mod address;
pub mod clock;
pub mod config;
pub mod dispatch;
pub mod element;
pub mod handler;
pub mod record;
pub mod registry;
pub mod router;
pub mod sample;
