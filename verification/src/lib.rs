//! Authenticated door actuation over a building-automation network.
//!
//! The library verifies a challenge-response digest handshake, resolves a
//! configured actuator by name, and drives the timed on/hold/off pulse
//! sequence that opens a door. Network and file I/O live outside; the
//! decisions, conversions and wire frames are specified and proved here.

pub mod auth;
pub mod config;
pub mod hexcode;
pub mod numfmt;
pub mod pulse;
