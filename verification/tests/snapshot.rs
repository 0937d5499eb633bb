use nanokontrol::codec::SnapshotError;
use nanokontrol::shared::SharedStatus;
use nanokontrol::state::{Status, STATE_SIZE};

/// Every mapped button id with the wire byte it owns.
const BUTTON_BYTES: [(u8, usize); 35] = [
    (0x3A, 0),
    (0x3B, 1),
    (0x2E, 2),
    (0x3C, 3),
    (0x3D, 4),
    (0x3E, 5),
    (0x2B, 6),
    (0x2C, 7),
    (0x2A, 8),
    (0x29, 9),
    (0x2D, 10),
    (0x20, 27),
    (0x21, 28),
    (0x22, 29),
    (0x23, 30),
    (0x24, 31),
    (0x25, 32),
    (0x26, 33),
    (0x27, 34),
    (0x30, 35),
    (0x31, 36),
    (0x32, 37),
    (0x33, 38),
    (0x34, 39),
    (0x35, 40),
    (0x36, 41),
    (0x37, 42),
    (0x40, 43),
    (0x41, 44),
    (0x42, 45),
    (0x43, 46),
    (0x44, 47),
    (0x45, 48),
    (0x46, 49),
    (0x47, 50),
];

#[test]
fn new_state_serializes_to_zeroes() {
    let s = Status::new();
    let bytes = s.serialize();
    assert_eq!(bytes.len(), STATE_SIZE);
    assert!(bytes.iter().all(|&b| b == 0));
}

#[test]
fn default_matches_new() {
    assert_eq!(Status::default(), Status::new());
}

#[test]
fn every_mapped_button_sets_exactly_its_byte() {
    for &(id, idx) in BUTTON_BYTES.iter() {
        let mut s = Status::new();
        s.button(id, true);
        let bytes = s.serialize();
        for (j, &b) in bytes.iter().enumerate() {
            if j == idx {
                assert_eq!(b, 1, "id {:#x} must set byte {}", id, idx);
            } else {
                assert_eq!(b, 0, "id {:#x} must leave byte {} alone", id, j);
            }
        }
        s.button(id, false);
        assert_eq!(s, Status::new(), "releasing id {:#x} must restore the state", id);
    }
}

#[test]
fn button_preserves_other_fields() {
    let mut s = Status::new();
    s.analog(0x00, 90);
    s.button(0x2A, true);
    let before = s.serialize();
    s.button(0x29, true);
    let after = s.serialize();
    let diffs: Vec<usize> = (0..STATE_SIZE).filter(|&j| before[j] != after[j]).collect();
    assert_eq!(diffs, vec![9]);
    assert_eq!(after[9], 1);
    assert_eq!(after[11], 90);
    assert_eq!(after[8], 1);
}

#[test]
fn every_fader_and_knob_stores_its_value() {
    for i in 0..8u8 {
        let mut s = Status::new();
        s.analog(i, 64 + i);
        assert_eq!(s.serialize()[11 + i as usize], 64 + i);

        let mut s = Status::new();
        s.analog(0x10 + i, 200);
        assert_eq!(s.serialize()[19 + i as usize], 200);
    }
}

#[test]
fn analog_values_round_trip_over_full_range() {
    for &v in [0u8, 1, 64, 127, 128, 254, 255].iter() {
        let mut s = Status::new();
        s.analog(0x00, v);
        let decoded = Status::deserialize(&s.serialize()).unwrap();
        assert_eq!(decoded.fader0, v);
    }
}

#[test]
fn mixed_state_round_trips() {
    let mut s = Status::new();
    s.button(0x29, true);
    s.button(0x3A, true);
    s.button(0x47, true);
    s.analog(0x00, 255);
    s.analog(0x07, 1);
    s.analog(0x17, 42);
    let decoded = Status::deserialize(&s.serialize()).unwrap();
    assert_eq!(decoded, s);
}

#[test]
fn deserialize_rejects_every_other_length() {
    for len in [0usize, 1, STATE_SIZE - 1, STATE_SIZE + 1, 2 * STATE_SIZE].iter() {
        let bytes = vec![0u8; *len];
        assert_eq!(Status::deserialize(&bytes), Err(SnapshotError::SizeMismatch));
    }
    let bytes = vec![0u8; STATE_SIZE];
    assert!(Status::deserialize(&bytes).is_ok());
}

#[test]
fn nonzero_toggle_byte_decodes_as_engaged() {
    let mut bytes = vec![0u8; STATE_SIZE];
    bytes[0] = 2;
    let decoded = Status::deserialize(&bytes).unwrap();
    assert!(decoded.track_left);
}

#[test]
fn unknown_ids_leave_the_state_unchanged() {
    for &id in [0x08u8, 0x18, 0x28, 0x38, 0x48, 0xFF].iter() {
        let mut s = Status::new();
        s.button(id, true);
        assert_eq!(s, Status::new(), "button id {:#x} must be ignored", id);
    }
    for &id in [0x08u8, 0x18, 0xFF].iter() {
        let mut s = Status::new();
        s.analog(id, 99);
        assert_eq!(s, Status::new(), "analog id {:#x} must be ignored", id);
    }
}

#[test]
fn note_events_press_and_release() {
    let mut s = Status::new();
    assert!(s.apply_event(&[144, 0x29, 127]));
    assert!(s.play);
    assert!(s.apply_event(&[128, 0x29, 64]));
    assert!(!s.play);
}

#[test]
fn control_change_stores_analog_value() {
    let mut s = Status::new();
    assert!(s.apply_event(&[176, 0x00, 200]));
    assert_eq!(s.fader0, 200);
}

#[test]
fn unrecognized_events_are_dropped() {
    let mut s = Status::new();
    s.apply_event(&[144, 0x29, 127]);
    let before = s;
    assert!(!s.apply_event(&[144, 0x29, 100]));
    assert!(!s.apply_event(&[128, 0x29, 63]));
    assert!(!s.apply_event(&[1, 2, 3]));
    assert!(!s.apply_event(&[144, 0x29]));
    assert!(!s.apply_event(&[]));
    assert!(!s.apply_event(&[176, 0x00, 1, 2]));
    assert_eq!(s, before);
}

#[test]
fn served_snapshot_shows_pressed_play() {
    let shared = SharedStatus::new();
    assert!(shared.apply_event(&[144, 0x29, 127]));
    let snapshot = shared.snapshot();
    assert_eq!(snapshot.len(), STATE_SIZE);
    assert_eq!(snapshot[9], 1);
    let decoded = Status::deserialize(&snapshot).unwrap();
    assert!(decoded.play);
}

#[test]
fn served_snapshot_keeps_last_fader_write() {
    let shared = SharedStatus::new();
    assert!(shared.apply_event(&[176, 0x00, 64]));
    assert!(shared.apply_event(&[176, 0x00, 200]));
    let snapshot = shared.snapshot();
    assert_eq!(snapshot[11], 200);
    assert!(!shared.apply_event(&[7, 7, 7]));
    assert_eq!(shared.snapshot()[11], 200);
}
