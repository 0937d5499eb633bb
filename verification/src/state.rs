//! The control surface's state record and the control-id mapping.

use vstd::prelude::*;

verus! {

/// Number of bytes in the wire form of [`Status`]: one byte per control field.
pub const STATE_SIZE: usize = 51;

/// The complete state of the control surface at one instant.
///
/// Every field is one control: a toggle is `bool`, an analog position is a
/// raw `u8` sample (the last value the surface reported).  The field order
/// here is the wire order of the snapshot protocol and must not change.
#[derive(Clone, Copy, PartialEq, Eq, Structural, Debug)]
pub struct Status {
    pub track_left: bool,
    pub track_right: bool,

    pub cycle: bool,

    pub marker_set: bool,
    pub marker_left: bool,
    pub marker_right: bool,

    pub fast_left: bool,
    pub fast_right: bool,

    pub stop: bool,
    pub play: bool,
    pub record: bool,

    pub fader0: u8,
    pub fader1: u8,
    pub fader2: u8,
    pub fader3: u8,
    pub fader4: u8,
    pub fader5: u8,
    pub fader6: u8,
    pub fader7: u8,

    pub knob0: u8,
    pub knob1: u8,
    pub knob2: u8,
    pub knob3: u8,
    pub knob4: u8,
    pub knob5: u8,
    pub knob6: u8,
    pub knob7: u8,

    pub solo0: bool,
    pub solo1: bool,
    pub solo2: bool,
    pub solo3: bool,
    pub solo4: bool,
    pub solo5: bool,
    pub solo6: bool,
    pub solo7: bool,

    pub mute0: bool,
    pub mute1: bool,
    pub mute2: bool,
    pub mute3: bool,
    pub mute4: bool,
    pub mute5: bool,
    pub mute6: bool,
    pub mute7: bool,

    pub rec0: bool,
    pub rec1: bool,
    pub rec2: bool,
    pub rec3: bool,
    pub rec4: bool,
    pub rec5: bool,
    pub rec6: bool,
    pub rec7: bool,
}

/// Whether `id` names a button: one of the eleven transport/navigation
/// buttons, or a solo, mute or record-enable toggle of one of the eight
/// channel strips.
pub open spec fn is_button_id(id: u8) -> bool {
    ||| id == 0x3A
    ||| id == 0x3B
    ||| id == 0x2E
    ||| id == 0x3C
    ||| id == 0x3D
    ||| id == 0x3E
    ||| id == 0x2B
    ||| id == 0x2C
    ||| id == 0x2A
    ||| id == 0x29
    ||| id == 0x2D
    ||| (0x20 <= id && id <= 0x27)
    ||| (0x30 <= id && id <= 0x37)
    ||| (0x40 <= id && id <= 0x47)
}

/// Whether `id` names an analog control: a fader or a knob of one of the
/// eight channel strips.
pub open spec fn is_analog_id(id: u8) -> bool {
    ||| id <= 0x07
    ||| (0x10 <= id && id <= 0x17)
}

impl Status {
    /// The startup state: every toggle released, every analog position zero.
    pub open spec fn spec_init() -> Status {
        Status {
            track_left: false,
            track_right: false,
            cycle: false,
            marker_set: false,
            marker_left: false,
            marker_right: false,
            fast_left: false,
            fast_right: false,
            stop: false,
            play: false,
            record: false,
            fader0: 0,
            fader1: 0,
            fader2: 0,
            fader3: 0,
            fader4: 0,
            fader5: 0,
            fader6: 0,
            fader7: 0,
            knob0: 0,
            knob1: 0,
            knob2: 0,
            knob3: 0,
            knob4: 0,
            knob5: 0,
            knob6: 0,
            knob7: 0,
            solo0: false,
            solo1: false,
            solo2: false,
            solo3: false,
            solo4: false,
            solo5: false,
            solo6: false,
            solo7: false,
            mute0: false,
            mute1: false,
            mute2: false,
            mute3: false,
            mute4: false,
            mute5: false,
            mute6: false,
            mute7: false,
            rec0: false,
            rec1: false,
            rec2: false,
            rec3: false,
            rec4: false,
            rec5: false,
            rec6: false,
            rec7: false,
        }
    }

    /// The transport rows of the mapping table; an id outside them changes nothing.
    pub open spec fn spec_button_transport(self, id: u8, pressed: bool) -> Status {
        match id {
            0x3A => Status { track_left: pressed, ..self },
            0x3B => Status { track_right: pressed, ..self },
            0x2E => Status { cycle: pressed, ..self },
            0x3C => Status { marker_set: pressed, ..self },
            0x3D => Status { marker_left: pressed, ..self },
            0x3E => Status { marker_right: pressed, ..self },
            0x2B => Status { fast_left: pressed, ..self },
            0x2C => Status { fast_right: pressed, ..self },
            0x2A => Status { stop: pressed, ..self },
            0x29 => Status { play: pressed, ..self },
            0x2D => Status { record: pressed, ..self },
            _ => self,
        }
    }

    /// The solo rows of the mapping table; an id outside them changes nothing.
    pub open spec fn spec_button_solo(self, id: u8, pressed: bool) -> Status {
        match id {
            0x20 => Status { solo0: pressed, ..self },
            0x21 => Status { solo1: pressed, ..self },
            0x22 => Status { solo2: pressed, ..self },
            0x23 => Status { solo3: pressed, ..self },
            0x24 => Status { solo4: pressed, ..self },
            0x25 => Status { solo5: pressed, ..self },
            0x26 => Status { solo6: pressed, ..self },
            0x27 => Status { solo7: pressed, ..self },
            _ => self,
        }
    }

    /// The mute rows of the mapping table; an id outside them changes nothing.
    pub open spec fn spec_button_mute(self, id: u8, pressed: bool) -> Status {
        match id {
            0x30 => Status { mute0: pressed, ..self },
            0x31 => Status { mute1: pressed, ..self },
            0x32 => Status { mute2: pressed, ..self },
            0x33 => Status { mute3: pressed, ..self },
            0x34 => Status { mute4: pressed, ..self },
            0x35 => Status { mute5: pressed, ..self },
            0x36 => Status { mute6: pressed, ..self },
            0x37 => Status { mute7: pressed, ..self },
            _ => self,
        }
    }

    /// The rec rows of the mapping table; an id outside them changes nothing.
    pub open spec fn spec_button_rec(self, id: u8, pressed: bool) -> Status {
        match id {
            0x40 => Status { rec0: pressed, ..self },
            0x41 => Status { rec1: pressed, ..self },
            0x42 => Status { rec2: pressed, ..self },
            0x43 => Status { rec3: pressed, ..self },
            0x44 => Status { rec4: pressed, ..self },
            0x45 => Status { rec5: pressed, ..self },
            0x46 => Status { rec6: pressed, ..self },
            0x47 => Status { rec7: pressed, ..self },
            _ => self,
        }
    }

    /// The authoritative button-id mapping: the state after a button event
    /// for `id` with position `pressed`.  An unknown id changes nothing.
    pub open spec fn spec_button(self, id: u8, pressed: bool) -> Status {
        if 0x20 <= id && id <= 0x27 {
            self.spec_button_solo(id, pressed)
        } else if 0x30 <= id && id <= 0x37 {
            self.spec_button_mute(id, pressed)
        } else if 0x40 <= id && id <= 0x47 {
            self.spec_button_rec(id, pressed)
        } else {
            self.spec_button_transport(id, pressed)
        }
    }

    /// The fader rows of the mapping table; an id outside them changes nothing.
    pub open spec fn spec_analog_fader(self, id: u8, value: u8) -> Status {
        match id {
            0x00 => Status { fader0: value, ..self },
            0x01 => Status { fader1: value, ..self },
            0x02 => Status { fader2: value, ..self },
            0x03 => Status { fader3: value, ..self },
            0x04 => Status { fader4: value, ..self },
            0x05 => Status { fader5: value, ..self },
            0x06 => Status { fader6: value, ..self },
            0x07 => Status { fader7: value, ..self },
            _ => self,
        }
    }

    /// The knob rows of the mapping table; an id outside them changes nothing.
    pub open spec fn spec_analog_knob(self, id: u8, value: u8) -> Status {
        match id {
            0x10 => Status { knob0: value, ..self },
            0x11 => Status { knob1: value, ..self },
            0x12 => Status { knob2: value, ..self },
            0x13 => Status { knob3: value, ..self },
            0x14 => Status { knob4: value, ..self },
            0x15 => Status { knob5: value, ..self },
            0x16 => Status { knob6: value, ..self },
            0x17 => Status { knob7: value, ..self },
            _ => self,
        }
    }

    /// The authoritative analog-id mapping: the state after an analog event
    /// for `id` with position `value`.  An unknown id changes nothing.
    pub open spec fn spec_analog(self, id: u8, value: u8) -> Status {
        if id <= 0x07 {
            self.spec_analog_fader(id, value)
        } else if 0x10 <= id && id <= 0x17 {
            self.spec_analog_knob(id, value)
        } else {
            self
        }
    }

    /// Fresh startup state, all fields zero/false.
    pub fn new() -> (s: Status)
        ensures
            s == Status::spec_init(),
    {
        Status {
            track_left: false,
            track_right: false,
            cycle: false,
            marker_set: false,
            marker_left: false,
            marker_right: false,
            fast_left: false,
            fast_right: false,
            stop: false,
            play: false,
            record: false,
            fader0: 0,
            fader1: 0,
            fader2: 0,
            fader3: 0,
            fader4: 0,
            fader5: 0,
            fader6: 0,
            fader7: 0,
            knob0: 0,
            knob1: 0,
            knob2: 0,
            knob3: 0,
            knob4: 0,
            knob5: 0,
            knob6: 0,
            knob7: 0,
            solo0: false,
            solo1: false,
            solo2: false,
            solo3: false,
            solo4: false,
            solo5: false,
            solo6: false,
            solo7: false,
            mute0: false,
            mute1: false,
            mute2: false,
            mute3: false,
            mute4: false,
            mute5: false,
            mute6: false,
            mute7: false,
            rec0: false,
            rec1: false,
            rec2: false,
            rec3: false,
            rec4: false,
            rec5: false,
            rec6: false,
            rec7: false,
        }
    }

    #[verifier::rlimit(50)]
    fn button_transport(&mut self, id: u8, status: bool)
        ensures
            *final(self) == old(self).spec_button_transport(id, status),
    {
        let s = *self;
        *self = match id {
            0x3A => Status { track_left: status, ..s },
            0x3B => Status { track_right: status, ..s },
            0x2E => Status { cycle: status, ..s },
            0x3C => Status { marker_set: status, ..s },
            0x3D => Status { marker_left: status, ..s },
            0x3E => Status { marker_right: status, ..s },
            0x2B => Status { fast_left: status, ..s },
            0x2C => Status { fast_right: status, ..s },
            0x2A => Status { stop: status, ..s },
            0x29 => Status { play: status, ..s },
            0x2D => Status { record: status, ..s },
            _ => s,
        };
    }

    #[verifier::rlimit(50)]
    fn button_solo(&mut self, id: u8, status: bool)
        ensures
            *final(self) == old(self).spec_button_solo(id, status),
    {
        let s = *self;
        *self = match id {
            0x20 => Status { solo0: status, ..s },
            0x21 => Status { solo1: status, ..s },
            0x22 => Status { solo2: status, ..s },
            0x23 => Status { solo3: status, ..s },
            0x24 => Status { solo4: status, ..s },
            0x25 => Status { solo5: status, ..s },
            0x26 => Status { solo6: status, ..s },
            0x27 => Status { solo7: status, ..s },
            _ => s,
        };
    }

    #[verifier::spinoff_prover]
    #[verifier::rlimit(100)]
    fn button_mute(&mut self, id: u8, status: bool)
        ensures
            *final(self) == old(self).spec_button_mute(id, status),
    {
        let s = *self;
        *self = match id {
            0x30 => Status { mute0: status, ..s },
            0x31 => Status { mute1: status, ..s },
            0x32 => Status { mute2: status, ..s },
            0x33 => Status { mute3: status, ..s },
            0x34 => Status { mute4: status, ..s },
            0x35 => Status { mute5: status, ..s },
            0x36 => Status { mute6: status, ..s },
            0x37 => Status { mute7: status, ..s },
            _ => s,
        };
    }

    #[verifier::rlimit(50)]
    fn button_rec(&mut self, id: u8, status: bool)
        ensures
            *final(self) == old(self).spec_button_rec(id, status),
    {
        let s = *self;
        *self = match id {
            0x40 => Status { rec0: status, ..s },
            0x41 => Status { rec1: status, ..s },
            0x42 => Status { rec2: status, ..s },
            0x43 => Status { rec3: status, ..s },
            0x44 => Status { rec4: status, ..s },
            0x45 => Status { rec5: status, ..s },
            0x46 => Status { rec6: status, ..s },
            0x47 => Status { rec7: status, ..s },
            _ => s,
        };
    }

    /// Set the toggle that `id` names to `status`; ignore an unknown id.
    pub fn button(&mut self, id: u8, status: bool)
        ensures
            *final(self) == old(self).spec_button(id, status),
    {
        if 0x20 <= id && id <= 0x27 {
            self.button_solo(id, status);
        } else if 0x30 <= id && id <= 0x37 {
            self.button_mute(id, status);
        } else if 0x40 <= id && id <= 0x47 {
            self.button_rec(id, status);
        } else {
            self.button_transport(id, status);
        }
    }

    #[verifier::rlimit(50)]
    fn analog_fader(&mut self, id: u8, value: u8)
        ensures
            *final(self) == old(self).spec_analog_fader(id, value),
    {
        let s = *self;
        *self = match id {
            0x00 => Status { fader0: value, ..s },
            0x01 => Status { fader1: value, ..s },
            0x02 => Status { fader2: value, ..s },
            0x03 => Status { fader3: value, ..s },
            0x04 => Status { fader4: value, ..s },
            0x05 => Status { fader5: value, ..s },
            0x06 => Status { fader6: value, ..s },
            0x07 => Status { fader7: value, ..s },
            _ => s,
        };
    }

    #[verifier::rlimit(50)]
    fn analog_knob(&mut self, id: u8, value: u8)
        ensures
            *final(self) == old(self).spec_analog_knob(id, value),
    {
        let s = *self;
        *self = match id {
            0x10 => Status { knob0: value, ..s },
            0x11 => Status { knob1: value, ..s },
            0x12 => Status { knob2: value, ..s },
            0x13 => Status { knob3: value, ..s },
            0x14 => Status { knob4: value, ..s },
            0x15 => Status { knob5: value, ..s },
            0x16 => Status { knob6: value, ..s },
            0x17 => Status { knob7: value, ..s },
            _ => s,
        };
    }

    /// Store `value` in the fader or knob that `id` names; ignore an
    /// unknown id.
    pub fn analog(&mut self, id: u8, value: u8)
        ensures
            *final(self) == old(self).spec_analog(id, value),
    {
        if id <= 0x07 {
            self.analog_fader(id, value);
        } else if 0x10 <= id && id <= 0x17 {
            self.analog_knob(id, value);
        }
    }

    /// An unmapped button id is silently ignored: the state is unchanged.
    #[verifier::spinoff_prover]
    #[verifier::rlimit(50)]
    pub proof fn lemma_unknown_button_ignored(self, id: u8, pressed: bool)
        requires
            !is_button_id(id),
        ensures
            self.spec_button(id, pressed) == self,
    {
    }

    /// An unmapped analog id is silently ignored: the state is unchanged.
    #[verifier::spinoff_prover]
    #[verifier::rlimit(50)]
    pub proof fn lemma_unknown_analog_ignored(self, id: u8, value: u8)
        requires
            !is_analog_id(id),
        ensures
            self.spec_analog(id, value) == self,
    {
    }
}

impl Default for Status {
    /// Same value as [`Status::new`].
    fn default() -> (s: Self)
        ensures
            s == Status::spec_init(),
    {
        Status::new()
    }
}

} // verus!
