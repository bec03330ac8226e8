//! Control core of a two-player chess clock.
//!
//! The library holds the verified logic of the device: the debounced input
//! filter, the bounded countdown-time value type, the per-iteration step
//! functions of the time-set, pause, countdown and finish sub-machines, the
//! framed serial message protocol with its connection handshake, and the
//! top-level game phase machine. Everything that touches hardware (pins,
//! display, serial port, the millisecond tick) stays outside; the step
//! functions take plain values (the current millisecond count, raw button
//! levels, decoded messages) and return plain values (render and buzzer
//! commands, messages to send, sub-machine results).

pub mod countdown;
pub mod debounce;
pub mod error;
pub mod finish;
pub mod game;
pub mod pause;
pub mod serial;
pub mod time_set;
