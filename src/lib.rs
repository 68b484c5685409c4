//! Front-panel controller for a two-channel bench power supply that speaks
//! an AR488-style ASCII protocol over a serial line.
//!
//! The library holds the verified core: line framing, button debounce,
//! rotary decoding, the protocol codec, the UI state machine and the
//! decisions of the control loop. Hardware access stays with the caller.

pub mod buf;
pub mod button;
pub mod consts;
pub mod controller;
pub mod decimal;
pub mod delay;
pub mod error;
pub mod line;
pub mod model;
pub mod protocol;
pub mod rotary_encoder;
pub mod sched;
pub mod sdcard;
