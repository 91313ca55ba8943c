//! Recognition core for an ocarina-style melody game: a five-symbol note
//! alphabet, a fixed-capacity note buffer, an exact-match song catalog, and an
//! edge-triggered state machine that turns note events into synthesizer and
//! sequencer commands.
//!
//! Everything here is pure state-machine logic. The audio backend, the
//! terminal front end and the synthesizers themselves live outside the
//! library; they feed note events in and carry the returned commands out.

pub mod buffer;
pub mod codec;
pub mod song;
pub mod trigger;
