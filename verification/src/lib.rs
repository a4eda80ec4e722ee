//! Decisions and data of a small power monitor for a TP-Link Kasa smart plug.
//!
//! The monitor polls the plug over TCP, keeps the readings of the last seconds and
//! publishes them over MQTT. This crate holds everything that decides or computes:
//! the wire format, the reading cache and its statistics, and the state machines of
//! the tasks. Sockets, pins, sleeps and the radio belong to the program around it.

pub mod button;
pub mod cache;
pub mod exchange;
pub mod kasa;
pub mod led;
pub mod monitor;
pub mod mqtt;
pub mod net;
pub mod protocol;
pub mod stats;
pub mod text;
pub mod time;

