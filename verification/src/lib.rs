//! Verified core of a USB-MIDI controller firmware: MIDI note packets,
//! the button/web-socket note controller, the web-socket session rules,
//! the serial restart command and the captive-portal URL.

pub mod types;
pub mod midi;
pub mod controller;
pub mod restart;
pub mod utils;
pub mod web_socket;
pub mod net;
