use bhbadge2024::pulse::{Correction, PulseDescriptor, decode_pulse_codes, write_pulse_codes};

fn zero_pulse() -> PulseDescriptor {
    PulseDescriptor { level1: true, length1: 20, level2: false, length2: 80 }
}

fn one_pulse() -> PulseDescriptor {
    PulseDescriptor { level1: true, length1: 70, level2: false, length2: 30 }
}

#[test]
fn packs_zero_pulse_to_raw_word() {
    // (0 << 31) | (80 << 16) | (1 << 15) | 20
    assert_eq!(zero_pulse().to_raw(), 0x0050_8014);
}

#[test]
fn packs_one_pulse_to_raw_word() {
    // (0 << 31) | (30 << 16) | (1 << 15) | 70
    assert_eq!(one_pulse().to_raw(), 0x001E_8046);
}

#[test]
fn packs_high_second_level() {
    let d = PulseDescriptor { level1: false, length1: 1, level2: true, length2: 2 };
    assert_eq!(d.to_raw(), 0x8002_0001);
}

#[test]
fn end_marker_is_all_zero() {
    let end = PulseDescriptor::end_marker();
    assert_eq!(end.to_raw(), 0);
    assert!(!end.level1);
    assert!(!end.level2);
    assert_eq!(end.length1, 0);
    assert_eq!(end.length2, 0);
}

#[test]
fn encodes_byte_msb_first() {
    let id = Correction::identity();
    let out = write_pulse_codes(0b1011_0010, &id, zero_pulse(), one_pulse());
    let expected = [true, false, true, true, false, false, true, false];
    assert_eq!(out.len(), 8);
    for (slot, set) in out.iter().zip(expected) {
        assert_eq!(*slot, if set { one_pulse() } else { zero_pulse() });
    }
}

#[test]
fn every_slot_is_zero_or_one_pulse() {
    let id = Correction::identity();
    for byte in 0..=255u8 {
        let out = write_pulse_codes(byte, &id, zero_pulse(), one_pulse());
        for slot in out.iter() {
            assert!(*slot == zero_pulse() || *slot == one_pulse());
        }
    }
}

#[test]
fn identity_correction_keeps_bytes() {
    let id = Correction::identity();
    for byte in [0u8, 1, 127, 128, 200, 255] {
        assert_eq!(id.apply(byte), byte);
    }
}

#[test]
fn correction_rounds_ties_up() {
    // 255 * 1/2 = 127.5 rounds to 128.
    let half = Correction { num: 1, den: 2 };
    assert_eq!(half.apply(255), 128);
    // 255 * 3/10 = 76.5 rounds to 77.
    let c = Correction { num: 3, den: 10 };
    assert_eq!(c.apply(255), 77);
    // 200 * 3/10 = 60 exactly.
    assert_eq!(c.apply(200), 60);
}

#[test]
fn calibration_correction_value() {
    // 0.3 * 177 / 256 as the exact fraction 531/2560: 255 * 531 / 2560 is
    // about 52.89, which rounds to 53.
    let c = Correction { num: 531, den: 2560 };
    assert_eq!(c.apply(255), 53);
    assert_eq!(c.apply(0), 0);
}

#[test]
fn correction_never_exceeds_input() {
    let cs = [
        Correction { num: 1, den: 1 },
        Correction { num: 1, den: 2 },
        Correction { num: 531, den: 2560 },
        Correction { num: 768, den: 2560 },
        Correction { num: 723, den: 2560 },
    ];
    for c in cs {
        for byte in 0..=255u8 {
            assert!(c.apply(byte) <= byte);
        }
    }
}

#[test]
fn decode_inverts_encode_for_every_byte() {
    let id = Correction::identity();
    for byte in 0..=255u8 {
        let out = write_pulse_codes(byte, &id, zero_pulse(), one_pulse());
        assert_eq!(decode_pulse_codes(&out, one_pulse()), byte);
    }
}

#[test]
fn decode_returns_corrected_byte() {
    // The round trip recovers the corrected byte, not the raw one: the
    // correction is lossy by design.
    let c = Correction { num: 3, den: 10 };
    let out = write_pulse_codes(255, &c, zero_pulse(), one_pulse());
    assert_eq!(decode_pulse_codes(&out, one_pulse()), 77);
}
