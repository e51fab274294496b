//! The pixel frame: the authoritative color state of the 16-pixel strip.
//!
//! Callers speak in (red, green, blue) triples; the strip's wire protocol
//! wants the channels in green, red, blue order, so that reordering is an
//! invariant of the buffer, spelled out by the named fields of [`Pixel`].

use vstd::prelude::*;

verus! {

/// Number of pixels on the strip.
pub const PIXEL_COUNT: usize = 16;

/// One stored pixel, in the strip's wire order: green, then red, then blue.
#[derive(Clone, Copy, PartialEq, Eq, Structural, Debug)]
pub struct Pixel {
    pub g: u8,
    pub r: u8,
    pub b: u8,
}

/// The image of a caller-facing (red, green, blue) triple in wire order.
pub open spec fn spec_grb(rgb: (u8, u8, u8)) -> Pixel {
    Pixel { g: rgb.1, r: rgb.0, b: rgb.2 }
}

/// The caller-facing (red, green, blue) triple a stored pixel stands for:
/// the inverse of [`spec_grb`].
pub open spec fn spec_rgb(p: Pixel) -> (u8, u8, u8) {
    (p.r, p.g, p.b)
}

/// The complete color state of the strip at one instant: exactly
/// [`PIXEL_COUNT`] pixels, addressable by index.
#[derive(Clone, Copy, Debug)]
pub struct FrameBuffer {
    pub pixels: [Pixel; PIXEL_COUNT],
}

impl View for FrameBuffer {
    type V = Seq<Pixel>;

    open spec fn view(&self) -> Seq<Pixel> {
        self.pixels@
    }
}

impl FrameBuffer {
    /// A frame with every pixel off.
    pub fn new() -> (r: FrameBuffer)
        ensures
            r@.len() == PIXEL_COUNT,
            forall|i: int| 0 <= i < PIXEL_COUNT ==> r@[i] == (Pixel { g: 0, r: 0, b: 0 }),
    {
        FrameBuffer { pixels: [Pixel { g: 0, r: 0, b: 0 }; 16] }
    }

    /// Sets a single pixel. `rgb` is given in caller order (red, green,
    /// blue) and is stored in wire order (green, red, blue); every other
    /// pixel keeps its value.
    pub fn set_pixel(&mut self, index: usize, rgb: (u8, u8, u8))
        requires
            index < PIXEL_COUNT,
        ensures
            final(self)@ == old(self)@.update(index as int, spec_grb(rgb)),
    {
        let (r, g, b) = rgb;
        self.pixels[index] = Pixel { g, r, b };
    }

    /// Raw access to the stored pixels. Note that they are kept in wire
    /// order (green, red, blue).
    pub fn raw_mut(&mut self) -> (raw: &mut [Pixel; PIXEL_COUNT])
        ensures
            raw@ == old(self)@,
            final(self)@ == final(raw)@,
    {
        &mut self.pixels
    }
}

/// No write is ever torn: after two completed `set_pixel` writes, the slot
/// written second holds the complete image of the second write, a distinct
/// slot written first holds the complete image of the first write, and every
/// untouched slot is unchanged — no slot ever mixes channels of two writes.
pub proof fn lemma_set_pixel_untorn(
    frame: Seq<Pixel>,
    i1: int,
    c1: (u8, u8, u8),
    i2: int,
    c2: (u8, u8, u8),
)
    requires
        0 <= i1 < frame.len(),
        0 <= i2 < frame.len(),
    ensures
        ({
            let after = frame.update(i1, spec_grb(c1)).update(i2, spec_grb(c2));
            &&& after[i2] == spec_grb(c2)
            &&& (i1 != i2 ==> after[i1] == spec_grb(c1))
            &&& forall|j: int|
                0 <= j < frame.len() && j != i1 && j != i2 ==> after[j] == frame[j]
        }),
{
}

} // verus!
