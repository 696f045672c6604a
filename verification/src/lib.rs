//! Decisions of a battery-powered temperature and humidity sensor that reports
//! to Home Assistant over MQTT.
//!
//! The device wakes, measures, joins the WiFi network, publishes, remembers how
//! that went, and sleeps again. Everything it decides on the way is here, as
//! functions from plain values to plain values; the firmware around the library
//! talks to the hardware and the network.

pub mod config;
pub mod discovery;
pub mod entity;
pub mod json;
pub mod publication;
pub mod run;
pub mod text;
pub mod voltage;
pub mod wake;
pub mod wifi;

