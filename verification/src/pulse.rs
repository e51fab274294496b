//! Pulse descriptors and the byte-to-pulse encoder.
//!
//! One WS2812B protocol bit is transmitted as a single electrical pulse: the
//! line is held high for some number of clock ticks and then low for some
//! number of ticks. The two tick pairs that stand for a zero bit and a one
//! bit are calibration data, not fixed protocol constants; they are supplied
//! by the caller and carried in [`crate::render::RenderConfig`].

use vstd::prelude::*;

verus! {

/// One hardware pulse: the transmitter drives the line at `level1` for
/// `length1` clock ticks, then at `level2` for `length2` ticks. One
/// descriptor encodes one protocol bit; the all-zero descriptor is the
/// transmitter's end-of-transmission marker.
#[derive(Clone, Copy, PartialEq, Eq, Structural, Debug)]
pub struct PulseDescriptor {
    pub level1: bool,
    pub length1: u16,
    pub level2: bool,
    pub length2: u16,
}

impl PulseDescriptor {
    /// Both tick counts fit the 15-bit length fields of the packed register
    /// word.
    pub open spec fn wf(self) -> bool {
        self.length1 < 0x8000 && self.length2 < 0x8000
    }

    /// The raw register word: bit 31 is the second level, bits 30..16 the
    /// second length, bit 15 the first level, bits 14..0 the first length.
    pub open spec fn spec_raw(self) -> int {
        (if self.level2 {
            0x8000_0000int
        } else {
            0int
        }) + self.length2 * 0x1_0000 + (if self.level1 {
            0x8000int
        } else {
            0int
        }) + self.length1
    }

    /// The descriptor that marks the end of a transmission: both levels low,
    /// both lengths zero.
    pub open spec fn spec_end_marker() -> PulseDescriptor {
        PulseDescriptor { level1: false, length1: 0, level2: false, length2: 0 }
    }

    /// The end-of-transmission marker, as a value.
    pub fn end_marker() -> (r: PulseDescriptor)
        ensures
            r == PulseDescriptor::spec_end_marker(),
            r.wf(),
            r.spec_raw() == 0,
    {
        PulseDescriptor { level1: false, length1: 0, level2: false, length2: 0 }
    }

    /// Packs the descriptor into the 32-bit word layout consumed by the
    /// pulse-generation peripheral.
    pub fn to_raw(&self) -> (r: u32)
        requires
            self.wf(),
        ensures
            r == self.spec_raw(),
    {
        let hi: u32 = if self.level2 {
            0x8000_0000
        } else {
            0
        };
        let mid: u32 = (self.length2 as u32) * 0x1_0000;
        let lo: u32 = if self.level1 {
            0x8000
        } else {
            0
        };
        hi + mid + lo + (self.length1 as u32)
    }
}

/// A per-channel brightness and color-mixing correction factor: the exact
/// rational `num / den`, constrained to the interval (0, 1]. Calibration
/// factors such as `0.3 * 177 / 256` are rationals, so keeping the factor
/// as a fraction makes the rounding arithmetic exact.
#[derive(Clone, Copy, PartialEq, Eq, Structural, Debug)]
pub struct Correction {
    pub num: u16,
    pub den: u16,
}

impl Correction {
    /// The factor is a rational in (0, 1].
    pub open spec fn wf(self) -> bool {
        0 < self.num <= self.den
    }

    /// `round(byte * num / den)` with ties rounding away from zero: the
    /// value the channel is actually driven with. Equal to
    /// `floor((2 * byte * num + den) / (2 * den))`.
    pub open spec fn spec_apply(self, byte: u8) -> int {
        (2 * byte * self.num + self.den) / (2 * self.den)
    }

    /// The identity factor `1 / 1`, which leaves every byte unchanged.
    pub fn identity() -> (r: Correction)
        ensures
            r.wf(),
            forall|b: u8| r.spec_apply(b) == b,
    {
        let r = Correction { num: 1, den: 1 };
        proof {
            assert forall|b: u8| r.spec_apply(b) == b by {
                assert((2 * b + 1) / 2 == b);
            }
        }
        r
    }

    /// Applies the correction to one channel byte. The result never exceeds
    /// the input because the factor is at most one.
    pub fn apply(&self, byte: u8) -> (r: u8)
        requires
            self.wf(),
        ensures
            r == self.spec_apply(byte),
            r <= byte,
    {
        proof {
            lemma_apply_bounds(*self, byte);
            assert(2 * byte * self.num + self.den < 0x1_0000_0000) by (nonlinear_arith)
                requires
                    byte <= 255 && self.num <= 0xffff && self.den <= 0xffff,
            ;
        }
        let n: u32 = 2 * (byte as u32) * (self.num as u32) + (self.den as u32);
        let d: u32 = 2 * (self.den as u32);
        let q: u32 = n / d;
        q as u8
    }
}

/// A correction in (0, 1] never drives a byte below zero or above its
/// uncorrected value.
pub proof fn lemma_apply_bounds(c: Correction, byte: u8)
    requires
        c.wf(),
    ensures
        0 <= c.spec_apply(byte) <= byte,
{
    assert(2 * byte * c.num + c.den < 2 * c.den * (byte + 1)) by (nonlinear_arith)
        requires
            0 < c.num <= c.den,
    ;
    assert((2 * byte * c.num + c.den) / (2 * c.den) <= byte) by (nonlinear_arith)
        requires
            0 < c.den && 2 * byte * c.num + c.den < 2 * c.den * (byte + 1),
    ;
    assert((2 * byte * c.num + c.den) / (2 * c.den) >= 0) by (nonlinear_arith)
        requires
            0 < c.den,
    ;
}

/// Bit `i` of `byte`, counting from the most significant bit, so that bit 0
/// is transmitted first.
pub open spec fn spec_bit(byte: u8, i: int) -> bool {
    (byte >> ((7 - i) as u8)) & 1 == 1
}

/// The 8 descriptors that transmit `byte`, most significant bit first: the
/// `one` calibration pulse where the bit is set and the `zero` pulse where
/// it is clear.
pub open spec fn spec_encode_byte(byte: u8, zero: PulseDescriptor, one: PulseDescriptor) -> Seq<
    PulseDescriptor,
> {
    Seq::new(8, |i: int| if spec_bit(byte, i) { one } else { zero })
}

/// Encodes one color channel: applies the correction to `byte`, then expands
/// the corrected byte into 8 pulse descriptors, most significant bit first.
pub fn write_pulse_codes(
    byte: u8,
    correction: &Correction,
    zero: PulseDescriptor,
    one: PulseDescriptor,
) -> (out: [PulseDescriptor; 8])
    requires
        correction.wf(),
    ensures
        out@ == spec_encode_byte(correction.spec_apply(byte) as u8, zero, one),
{
    let adjusted: u8 = correction.apply(byte);
    let mut out: [PulseDescriptor; 8] = [zero; 8];
    let mut j: usize = 0;
    while j < 8
        invariant
            j <= 8,
            out@.len() == 8,
            forall|i: int| 0 <= i < j ==> out@[i] == (if spec_bit(adjusted, i) { one } else { zero }),
            forall|i: int| j <= i < 8 ==> out@[i] == zero,
        decreases 8 - j,
    {
        let shift: u8 = 7 - (j as u8);
        if (adjusted >> shift) & 1 == 1 {
            out[j] = one;
        }
        j += 1;
    }
    proof {
        assert(out@ =~= spec_encode_byte(adjusted, zero, one));
    }
    out
}

/// The byte read back from 8 descriptors by asking, for each slot, whether
/// the `one` calibration pulse was chosen: the most significant bit comes
/// from slot 0.
pub open spec fn spec_decode_byte(s: Seq<PulseDescriptor>, one: PulseDescriptor) -> int {
    128 * spec_slot_bit(s, one, 0) + 64 * spec_slot_bit(s, one, 1) + 32 * spec_slot_bit(s, one, 2)
        + 16 * spec_slot_bit(s, one, 3) + 8 * spec_slot_bit(s, one, 4) + 4 * spec_slot_bit(
        s,
        one,
        5,
    ) + 2 * spec_slot_bit(s, one, 6) + spec_slot_bit(s, one, 7)
}

/// 1 where slot `i` holds the `one` pulse, 0 otherwise.
pub open spec fn spec_slot_bit(s: Seq<PulseDescriptor>, one: PulseDescriptor, i: int) -> int {
    if s[i] == one {
        1
    } else {
        0
    }
}

/// Reconstructs the corrected channel byte from which calibration pulse each
/// of the 8 descriptors equals.
pub fn decode_pulse_codes(codes: &[PulseDescriptor; 8], one: PulseDescriptor) -> (r: u8)
    ensures
        r == spec_decode_byte(codes@, one),
{
    let mut r: u8 = 0;
    if codes[0] == one {
        r += 128;
    }
    if codes[1] == one {
        r += 64;
    }
    if codes[2] == one {
        r += 32;
    }
    if codes[3] == one {
        r += 16;
    }
    if codes[4] == one {
        r += 8;
    }
    if codes[5] == one {
        r += 4;
    }
    if codes[6] == one {
        r += 2;
    }
    if codes[7] == one {
        r += 1;
    }
    r
}

/// Every u8 equals the weighted sum of its bits, and each bit is 0 or 1.
proof fn lemma_byte_from_bits(b: u8)
    by (bit_vector)
    ensures
        128 * ((b >> 7u8) & 1) + 64 * ((b >> 6u8) & 1) + 32 * ((b >> 5u8) & 1) + 16 * ((b >> 4u8)
            & 1) + 8 * ((b >> 3u8) & 1) + 4 * ((b >> 2u8) & 1) + 2 * ((b >> 1u8) & 1) + ((b >> 0u8)
            & 1) == b,
        ((b >> 7u8) & 1) == 0 || ((b >> 7u8) & 1) == 1,
        ((b >> 6u8) & 1) == 0 || ((b >> 6u8) & 1) == 1,
        ((b >> 5u8) & 1) == 0 || ((b >> 5u8) & 1) == 1,
        ((b >> 4u8) & 1) == 0 || ((b >> 4u8) & 1) == 1,
        ((b >> 3u8) & 1) == 0 || ((b >> 3u8) & 1) == 1,
        ((b >> 2u8) & 1) == 0 || ((b >> 2u8) & 1) == 1,
        ((b >> 1u8) & 1) == 0 || ((b >> 1u8) & 1) == 1,
        ((b >> 0u8) & 1) == 0 || ((b >> 0u8) & 1) == 1,
{
}

/// Round-trip law for one byte: as long as the two calibration pulses are
/// distinguishable, decoding the encoding of a byte returns that byte.
pub proof fn lemma_encode_decode_byte(byte: u8, zero: PulseDescriptor, one: PulseDescriptor)
    requires
        zero != one,
    ensures
        spec_decode_byte(spec_encode_byte(byte, zero, one), one) == byte,
{
    let s = spec_encode_byte(byte, zero, one);
    lemma_byte_from_bits(byte);
    assert forall|i: int| 0 <= i < 8 implies spec_slot_bit(s, one, i) == ((byte >> ((7 - i) as u8))
        & 1) by {
        assert(s[i] == if spec_bit(byte, i) {
            one
        } else {
            zero
        });
        if spec_bit(byte, i) {
            assert(spec_slot_bit(s, one, i) == 1);
        } else {
            assert(s[i] == zero);
            assert(spec_slot_bit(s, one, i) == 0);
            lemma_bit_is_zero_or_one(byte, (7 - i) as u8);
        }
    }
    assert(spec_slot_bit(s, one, 0) == (byte >> 7u8) & 1);
    assert(spec_slot_bit(s, one, 1) == (byte >> 6u8) & 1);
    assert(spec_slot_bit(s, one, 2) == (byte >> 5u8) & 1);
    assert(spec_slot_bit(s, one, 3) == (byte >> 4u8) & 1);
    assert(spec_slot_bit(s, one, 4) == (byte >> 3u8) & 1);
    assert(spec_slot_bit(s, one, 5) == (byte >> 2u8) & 1);
    assert(spec_slot_bit(s, one, 6) == (byte >> 1u8) & 1);
    assert(spec_slot_bit(s, one, 7) == (byte >> 0u8) & 1);
}

/// A single bit extracted from a byte is 0 or 1.
proof fn lemma_bit_is_zero_or_one(b: u8, s: u8)
    by (bit_vector)
    ensures
        ((b >> s) & 1) == 0 || ((b >> s) & 1) == 1,
{
}

} // verus!
