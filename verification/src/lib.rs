//! Decoder and timing aggregator for raw MIDI traffic.
//!
//! Incoming byte buffers are classified according to the MIDI wire protocol,
//! timing-clock pulses are accumulated per source, and every observed event
//! is rendered as a short ASCII token.

pub mod classify;
pub mod clock;
pub mod fanout;
pub mod handler;
pub mod hex;
pub mod lemmas;
pub mod ports;
pub mod token;
