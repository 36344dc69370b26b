//! Stylus gesture recognition for convertible tablets: decoding of raw input
//! events, a bounded history of button events, gesture classification and the
//! state machine that turns a stream of stylus events into desktop actions.

pub mod clock;
pub mod input;
pub mod actions;
pub mod interaction;
pub mod launcher;
