//! Decoding of raw device messages into state mutations.

use vstd::prelude::*;
use crate::state::Status;

verus! {

impl Status {
    /// Whether a raw device message has one of the three recognized shapes:
    /// note-on at full velocity, note-off at velocity 64, or a control
    /// change.
    pub open spec fn spec_recognized(m: Seq<u8>) -> bool {
        m.len() == 3 && ((m[0] == 144 && m[2] == 127) || (m[0] == 128 && m[2] == 64) || m[0]
            == 176)
    }

    /// The state after folding one raw device message into `s`: note-on at
    /// full velocity presses a button, note-off at velocity 64 releases it,
    /// a control change stores an analog value, and any other shape changes
    /// nothing.
    pub open spec fn spec_apply_event(s: Status, m: Seq<u8>) -> Status {
        if m.len() == 3 && m[0] == 144 && m[2] == 127 {
            s.spec_button(m[1], true)
        } else if m.len() == 3 && m[0] == 128 && m[2] == 64 {
            s.spec_button(m[1], false)
        } else if m.len() == 3 && m[0] == 176 {
            s.spec_analog(m[1], m[2])
        } else {
            s
        }
    }

    /// Fold one raw device message into the state.  The result says whether
    /// the message was recognized; an unrecognized one is dropped without
    /// any mutation.
    pub fn apply_event(&mut self, message: &[u8]) -> (recognized: bool)
        ensures
            *final(self) == Status::spec_apply_event(*old(self), message@),
            recognized == Status::spec_recognized(message@),
    {
        if message.len() == 3 {
            let status: u8 = message[0];
            let control: u8 = message[1];
            let value: u8 = message[2];
            if status == 144 && value == 127 {
                self.button(control, true);
                true
            } else if status == 128 && value == 64 {
                self.button(control, false);
                true
            } else if status == 176 {
                self.analog(control, value);
                true
            } else {
                false
            }
        } else {
            false
        }
    }
}

} // verus!
