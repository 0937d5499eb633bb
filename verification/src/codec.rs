//! The wire form of [`Status`]: a fixed-size, field-ordered byte record.
//!
//! One byte per control, in the field order of the struct: a toggle as
//! `0x00`/`0x01`, an analog position as its raw value.  `serialize` and
//! `deserialize` are exact inverses on serialized states, and each control
//! id owns exactly one byte of the record.

use vstd::prelude::*;
use crate::state::{is_analog_id, is_button_id, Status, STATE_SIZE};

verus! {

/// The failures of the snapshot exchange.  `SizeMismatch` is the one that
/// decoding itself raises; the channel errors are raised by whoever runs
/// the transport.
#[derive(Clone, Copy, PartialEq, Eq, Structural, Debug)]
pub enum SnapshotError {
    /// A received buffer is not exactly `STATE_SIZE` bytes long.
    SizeMismatch,
    /// The channel could not be opened or accepted.
    ConnectionError,
    /// The input device could not be opened.
    DeviceUnavailable,
}

/// The byte that encodes one toggle on the wire.
pub open spec fn bool_byte(b: bool) -> u8 {
    if b {
        1u8
    } else {
        0u8
    }
}

fn byte_of_bool(b: bool) -> (r: u8)
    ensures
        r == bool_byte(b),
{
    if b {
        1
    } else {
        0
    }
}

impl Status {
    /// Byte `i` of the wire form: one byte per field, in the field order of
    /// the struct — the transport toggles, then the faders, the knobs, and
    /// the solo, mute and record-enable toggles of the eight strips.
    pub open spec fn spec_byte(self, i: int) -> u8 {
        if i == 0 {
            bool_byte(self.track_left)
        } else if i == 1 {
            bool_byte(self.track_right)
        } else if i == 2 {
            bool_byte(self.cycle)
        } else if i == 3 {
            bool_byte(self.marker_set)
        } else if i == 4 {
            bool_byte(self.marker_left)
        } else if i == 5 {
            bool_byte(self.marker_right)
        } else if i == 6 {
            bool_byte(self.fast_left)
        } else if i == 7 {
            bool_byte(self.fast_right)
        } else if i == 8 {
            bool_byte(self.stop)
        } else if i == 9 {
            bool_byte(self.play)
        } else if i == 10 {
            bool_byte(self.record)
        } else if i == 11 {
            self.fader0
        } else if i == 12 {
            self.fader1
        } else if i == 13 {
            self.fader2
        } else if i == 14 {
            self.fader3
        } else if i == 15 {
            self.fader4
        } else if i == 16 {
            self.fader5
        } else if i == 17 {
            self.fader6
        } else if i == 18 {
            self.fader7
        } else if i == 19 {
            self.knob0
        } else if i == 20 {
            self.knob1
        } else if i == 21 {
            self.knob2
        } else if i == 22 {
            self.knob3
        } else if i == 23 {
            self.knob4
        } else if i == 24 {
            self.knob5
        } else if i == 25 {
            self.knob6
        } else if i == 26 {
            self.knob7
        } else if i == 27 {
            bool_byte(self.solo0)
        } else if i == 28 {
            bool_byte(self.solo1)
        } else if i == 29 {
            bool_byte(self.solo2)
        } else if i == 30 {
            bool_byte(self.solo3)
        } else if i == 31 {
            bool_byte(self.solo4)
        } else if i == 32 {
            bool_byte(self.solo5)
        } else if i == 33 {
            bool_byte(self.solo6)
        } else if i == 34 {
            bool_byte(self.solo7)
        } else if i == 35 {
            bool_byte(self.mute0)
        } else if i == 36 {
            bool_byte(self.mute1)
        } else if i == 37 {
            bool_byte(self.mute2)
        } else if i == 38 {
            bool_byte(self.mute3)
        } else if i == 39 {
            bool_byte(self.mute4)
        } else if i == 40 {
            bool_byte(self.mute5)
        } else if i == 41 {
            bool_byte(self.mute6)
        } else if i == 42 {
            bool_byte(self.mute7)
        } else if i == 43 {
            bool_byte(self.rec0)
        } else if i == 44 {
            bool_byte(self.rec1)
        } else if i == 45 {
            bool_byte(self.rec2)
        } else if i == 46 {
            bool_byte(self.rec3)
        } else if i == 47 {
            bool_byte(self.rec4)
        } else if i == 48 {
            bool_byte(self.rec5)
        } else if i == 49 {
            bool_byte(self.rec6)
        } else if i == 50 {
            bool_byte(self.rec7)
        } else {
            0
        }
    }

    /// The wire form of this state: `STATE_SIZE` bytes, field order
    /// preserved.
    pub open spec fn spec_serialized(self) -> Seq<u8> {
        Seq::new(STATE_SIZE as nat, |i: int| self.spec_byte(i))
    }

    /// The state that `STATE_SIZE` wire bytes describe: a toggle byte is
    /// engaged exactly when it is nonzero.
    pub open spec fn spec_from_bytes(b: Seq<u8>) -> Status
        recommends
            b.len() == STATE_SIZE,
    {
        Status {
            track_left: b[0] != 0,
            track_right: b[1] != 0,
            cycle: b[2] != 0,
            marker_set: b[3] != 0,
            marker_left: b[4] != 0,
            marker_right: b[5] != 0,
            fast_left: b[6] != 0,
            fast_right: b[7] != 0,
            stop: b[8] != 0,
            play: b[9] != 0,
            record: b[10] != 0,
            fader0: b[11],
            fader1: b[12],
            fader2: b[13],
            fader3: b[14],
            fader4: b[15],
            fader5: b[16],
            fader6: b[17],
            fader7: b[18],
            knob0: b[19],
            knob1: b[20],
            knob2: b[21],
            knob3: b[22],
            knob4: b[23],
            knob5: b[24],
            knob6: b[25],
            knob7: b[26],
            solo0: b[27] != 0,
            solo1: b[28] != 0,
            solo2: b[29] != 0,
            solo3: b[30] != 0,
            solo4: b[31] != 0,
            solo5: b[32] != 0,
            solo6: b[33] != 0,
            solo7: b[34] != 0,
            mute0: b[35] != 0,
            mute1: b[36] != 0,
            mute2: b[37] != 0,
            mute3: b[38] != 0,
            mute4: b[39] != 0,
            mute5: b[40] != 0,
            mute6: b[41] != 0,
            mute7: b[42] != 0,
            rec0: b[43] != 0,
            rec1: b[44] != 0,
            rec2: b[45] != 0,
            rec3: b[46] != 0,
            rec4: b[47] != 0,
            rec5: b[48] != 0,
            rec6: b[49] != 0,
            rec7: b[50] != 0,
        }
    }

    /// The wire form always has exactly `STATE_SIZE` bytes.
    pub proof fn lemma_serialized_len(self)
        ensures
            self.spec_serialized().len() == STATE_SIZE,
    {
    }

    /// Decoding the wire form of a state gives that state back.
    #[verifier::spinoff_prover]
    #[verifier::rlimit(100)]
    pub proof fn lemma_round_trip(self)
        ensures
            Status::spec_from_bytes(self.spec_serialized()) == self,
    {
    }

    #[verifier::spinoff_prover]
    #[verifier::rlimit(50)]
    fn push_transport(&self, out: &mut Vec<u8>)
        requires
            old(out)@.len() == 0,
        ensures
            final(out)@.len() == 11,
            forall|i: int| 0 <= i < 0 ==> final(out)@[i] == old(out)@[i],
            forall|i: int| 0 <= i < 11 ==> final(out)@[i] == self.spec_byte(i),
    {
        out.push(byte_of_bool(self.track_left));
        out.push(byte_of_bool(self.track_right));
        out.push(byte_of_bool(self.cycle));
        out.push(byte_of_bool(self.marker_set));
        out.push(byte_of_bool(self.marker_left));
        out.push(byte_of_bool(self.marker_right));
        out.push(byte_of_bool(self.fast_left));
        out.push(byte_of_bool(self.fast_right));
        out.push(byte_of_bool(self.stop));
        out.push(byte_of_bool(self.play));
        out.push(byte_of_bool(self.record));
    }

    #[verifier::spinoff_prover]
    #[verifier::rlimit(50)]
    fn push_faders(&self, out: &mut Vec<u8>)
        requires
            old(out)@.len() == 11,
        ensures
            final(out)@.len() == 19,
            forall|i: int| 0 <= i < 11 ==> final(out)@[i] == old(out)@[i],
            forall|i: int| 11 <= i < 19 ==> final(out)@[i] == self.spec_byte(i),
    {
        out.push(self.fader0);
        out.push(self.fader1);
        out.push(self.fader2);
        out.push(self.fader3);
        out.push(self.fader4);
        out.push(self.fader5);
        out.push(self.fader6);
        out.push(self.fader7);
    }

    #[verifier::spinoff_prover]
    #[verifier::rlimit(50)]
    fn push_knobs(&self, out: &mut Vec<u8>)
        requires
            old(out)@.len() == 19,
        ensures
            final(out)@.len() == 27,
            forall|i: int| 0 <= i < 19 ==> final(out)@[i] == old(out)@[i],
            forall|i: int| 19 <= i < 27 ==> final(out)@[i] == self.spec_byte(i),
    {
        out.push(self.knob0);
        out.push(self.knob1);
        out.push(self.knob2);
        out.push(self.knob3);
        out.push(self.knob4);
        out.push(self.knob5);
        out.push(self.knob6);
        out.push(self.knob7);
    }

    #[verifier::spinoff_prover]
    #[verifier::rlimit(50)]
    fn push_solo(&self, out: &mut Vec<u8>)
        requires
            old(out)@.len() == 27,
        ensures
            final(out)@.len() == 35,
            forall|i: int| 0 <= i < 27 ==> final(out)@[i] == old(out)@[i],
            forall|i: int| 27 <= i < 35 ==> final(out)@[i] == self.spec_byte(i),
    {
        out.push(byte_of_bool(self.solo0));
        out.push(byte_of_bool(self.solo1));
        out.push(byte_of_bool(self.solo2));
        out.push(byte_of_bool(self.solo3));
        out.push(byte_of_bool(self.solo4));
        out.push(byte_of_bool(self.solo5));
        out.push(byte_of_bool(self.solo6));
        out.push(byte_of_bool(self.solo7));
    }

    #[verifier::spinoff_prover]
    #[verifier::rlimit(50)]
    fn push_mute(&self, out: &mut Vec<u8>)
        requires
            old(out)@.len() == 35,
        ensures
            final(out)@.len() == 43,
            forall|i: int| 0 <= i < 35 ==> final(out)@[i] == old(out)@[i],
            forall|i: int| 35 <= i < 43 ==> final(out)@[i] == self.spec_byte(i),
    {
        out.push(byte_of_bool(self.mute0));
        out.push(byte_of_bool(self.mute1));
        out.push(byte_of_bool(self.mute2));
        out.push(byte_of_bool(self.mute3));
        out.push(byte_of_bool(self.mute4));
        out.push(byte_of_bool(self.mute5));
        out.push(byte_of_bool(self.mute6));
        out.push(byte_of_bool(self.mute7));
    }

    #[verifier::spinoff_prover]
    #[verifier::rlimit(50)]
    fn push_rec(&self, out: &mut Vec<u8>)
        requires
            old(out)@.len() == 43,
        ensures
            final(out)@.len() == 51,
            forall|i: int| 0 <= i < 43 ==> final(out)@[i] == old(out)@[i],
            forall|i: int| 43 <= i < 51 ==> final(out)@[i] == self.spec_byte(i),
    {
        out.push(byte_of_bool(self.rec0));
        out.push(byte_of_bool(self.rec1));
        out.push(byte_of_bool(self.rec2));
        out.push(byte_of_bool(self.rec3));
        out.push(byte_of_bool(self.rec4));
        out.push(byte_of_bool(self.rec5));
        out.push(byte_of_bool(self.rec6));
        out.push(byte_of_bool(self.rec7));
    }

    /// Produce the wire form of this state.
    #[verifier::spinoff_prover]
    #[verifier::rlimit(100)]
    pub fn serialize(&self) -> (r: Vec<u8>)
        ensures
            r@ == self.spec_serialized(),
            r@.len() == STATE_SIZE,
    {
        let mut out: Vec<u8> = Vec::new();
        self.push_transport(&mut out);
        self.push_faders(&mut out);
        self.push_knobs(&mut out);
        self.push_solo(&mut out);
        self.push_mute(&mut out);
        self.push_rec(&mut out);
        proof {
            assert(out@ =~= self.spec_serialized());
        }
        out
    }

    /// Rebuild a state from its wire form; any other length is refused.
    #[verifier::spinoff_prover]
    #[verifier::rlimit(100)]
    pub fn deserialize(bytes: &[u8]) -> (r: Result<Status, SnapshotError>)
        ensures
            bytes@.len() == STATE_SIZE ==> r == Ok::<Status, SnapshotError>(
                Status::spec_from_bytes(bytes@),
            ),
            bytes@.len() != STATE_SIZE ==> r == Err::<Status, SnapshotError>(
                SnapshotError::SizeMismatch,
            ),
    {
        if bytes.len() != STATE_SIZE {
            Err(SnapshotError::SizeMismatch)
        } else {
            Ok(Status {
                track_left: bytes[0] != 0,
                track_right: bytes[1] != 0,
                cycle: bytes[2] != 0,
                marker_set: bytes[3] != 0,
                marker_left: bytes[4] != 0,
                marker_right: bytes[5] != 0,
                fast_left: bytes[6] != 0,
                fast_right: bytes[7] != 0,
                stop: bytes[8] != 0,
                play: bytes[9] != 0,
                record: bytes[10] != 0,
                fader0: bytes[11],
                fader1: bytes[12],
                fader2: bytes[13],
                fader3: bytes[14],
                fader4: bytes[15],
                fader5: bytes[16],
                fader6: bytes[17],
                fader7: bytes[18],
                knob0: bytes[19],
                knob1: bytes[20],
                knob2: bytes[21],
                knob3: bytes[22],
                knob4: bytes[23],
                knob5: bytes[24],
                knob6: bytes[25],
                knob7: bytes[26],
                solo0: bytes[27] != 0,
                solo1: bytes[28] != 0,
                solo2: bytes[29] != 0,
                solo3: bytes[30] != 0,
                solo4: bytes[31] != 0,
                solo5: bytes[32] != 0,
                solo6: bytes[33] != 0,
                solo7: bytes[34] != 0,
                mute0: bytes[35] != 0,
                mute1: bytes[36] != 0,
                mute2: bytes[37] != 0,
                mute3: bytes[38] != 0,
                mute4: bytes[39] != 0,
                mute5: bytes[40] != 0,
                mute6: bytes[41] != 0,
                mute7: bytes[42] != 0,
                rec0: bytes[43] != 0,
                rec1: bytes[44] != 0,
                rec2: bytes[45] != 0,
                rec3: bytes[46] != 0,
                rec4: bytes[47] != 0,
                rec5: bytes[48] != 0,
                rec6: bytes[49] != 0,
                rec7: bytes[50] != 0,
            })
        }
    }


}

/// The wire byte that a button id owns, or `-1` for an unmapped id.
pub open spec fn button_index(id: u8) -> int {
    if id == 0x3A {
        0
    } else if id == 0x3B {
        1
    } else if id == 0x2E {
        2
    } else if id == 0x3C {
        3
    } else if id == 0x3D {
        4
    } else if id == 0x3E {
        5
    } else if id == 0x2B {
        6
    } else if id == 0x2C {
        7
    } else if id == 0x2A {
        8
    } else if id == 0x29 {
        9
    } else if id == 0x2D {
        10
    } else if 0x20 <= id && id <= 0x27 {
        27 + (id - 0x20)
    } else if 0x30 <= id && id <= 0x37 {
        35 + (id - 0x30)
    } else if 0x40 <= id && id <= 0x47 {
        43 + (id - 0x40)
    } else {
        -1
    }
}

/// The wire byte that an analog id owns, or `-1` for an unmapped id.
pub open spec fn analog_index(id: u8) -> int {
    if id <= 0x07 {
        11 + id
    } else if 0x10 <= id && id <= 0x17 {
        19 + (id - 0x10)
    } else {
        -1
    }
}

} // verus!
