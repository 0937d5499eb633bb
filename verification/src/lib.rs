//! Live snapshot model of a MIDI control surface.
//!
//! The surface's state (transport buttons, per-channel solo/mute/record
//! toggles, faders and knobs) is held in a [`state::Status`] record.  MIDI
//! events fold into it one field at a time, and the whole record serializes
//! to a fixed-size byte sequence that a snapshot server hands to clients.

pub mod codec;
pub mod midi;
pub mod shared;
pub mod state;
