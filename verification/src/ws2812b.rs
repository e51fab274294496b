//! The pixel store and its public API.
//!
//! Exactly one [`Ws2812b`] exists per strip. Arbitrary tasks mutate pixels
//! through [`Ws2812b::set_pixel`] and [`Ws2812b::with_frame_buffer`]; every
//! mutation raises the change notifier, and the render loop consumes the
//! notifier and takes a consistent snapshot through
//! [`Ws2812b::snapshot_if_changed`]. The surrounding runtime shares this
//! value behind an exclusive guard, so at most one task touches it at a
//! time; here that exclusivity is Rust's `&mut`. The notifier itself is not
//! part of the facade: callers raise it only by mutating pixels.

use vstd::prelude::*;

use crate::frame::{FrameBuffer, PIXEL_COUNT, Pixel, spec_grb, spec_rgb};
use crate::notifier::ChangeNotifier;

verus! {

/// The one frame buffer of the process together with its change notifier.
pub struct Ws2812b {
    frame: FrameBuffer,
    notifier: ChangeNotifier,
}

impl Ws2812b {
    /// The frame the store holds.
    pub closed spec fn spec_frame(self) -> FrameBuffer {
        self.frame
    }

    /// Whether a render pass has been requested and not yet picked up.
    pub closed spec fn spec_pending(self) -> bool {
        self.notifier.pending
    }

    /// A store with every pixel off and a render already requested, so the
    /// strip is driven to a known state as soon as the render loop starts.
    pub fn new() -> (r: Ws2812b)
        ensures
            r.spec_frame()@.len() == PIXEL_COUNT,
            forall|i: int| 0 <= i < PIXEL_COUNT ==> r.spec_frame()@[i] == (Pixel { g: 0, r: 0, b: 0 }),
            r.spec_pending(),
    {
        let frame = FrameBuffer::new();
        let mut notifier = ChangeNotifier::new();
        notifier.notify();
        Ws2812b { frame, notifier }
    }

    /// Sets a single pixel and requests a render pass. To set several pixels
    /// at once, `with_frame_buffer` is cheaper: it raises the notifier once
    /// for the whole batch.
    pub fn set_pixel(&mut self, index: usize, rgb: (u8, u8, u8))
        requires
            index < PIXEL_COUNT,
        ensures
            final(self).spec_frame()@ == old(self).spec_frame()@.update(index as int, spec_grb(rgb)),
            final(self).spec_pending(),
    {
        self.frame.set_pixel(index, rgb);
        self.notifier.notify();
    }

    /// Grants exclusive access to the whole frame for a batched edit: the
    /// closure receives the frame, returns the edited frame together with a
    /// result, and the notifier is raised exactly once afterwards, no matter
    /// how many pixels the closure touched.
    pub fn with_frame_buffer<F, R>(&mut self, f: F) -> (r: R) where F: FnOnce(
        FrameBuffer,
    ) -> (FrameBuffer, R),
        requires
            call_requires(f, (old(self).spec_frame(),)),
        ensures
            call_ensures(f, (old(self).spec_frame(),), (final(self).spec_frame(), r)),
            final(self).spec_pending(),
    {
        let (frame, r) = f(self.frame);
        self.frame = frame;
        self.notifier.notify();
        r
    }

    /// The render loop's wait-and-snapshot step: if a render was requested
    /// since the last snapshot, consumes the request and hands out a copy of
    /// the frame. The copy is taken while holding the store exclusively, so
    /// it is always one consistent frame, never a mix of two edits; the
    /// store is released before the slow encode and transmit work starts.
    pub fn snapshot_if_changed(&mut self) -> (r: Option<FrameBuffer>)
        ensures
            final(self).spec_frame() == old(self).spec_frame(),
            !final(self).spec_pending(),
            old(self).spec_pending() ==> r == Some(old(self).spec_frame()),
            !old(self).spec_pending() ==> r is None,
    {
        if self.notifier.consume() {
            Some(self.frame)
        } else {
            None
        }
    }

    /// Reads back every pixel as a caller-facing (red, green, blue) triple,
    /// undoing the wire-order storage.
    pub fn current_colors(&self) -> (r: [(u8, u8, u8); PIXEL_COUNT])
        ensures
            forall|i: int| 0 <= i < PIXEL_COUNT ==> r@[i] == spec_rgb(self.spec_frame()@[i]),
    {
        let mut out: [(u8, u8, u8); PIXEL_COUNT] = [(0u8, 0u8, 0u8); 16];
        let mut i: usize = 0;
        while i < PIXEL_COUNT
            invariant
                i <= PIXEL_COUNT,
                out@.len() == PIXEL_COUNT,
                forall|j: int| 0 <= j < i ==> out@[j] == spec_rgb(self.frame@[j]),
            decreases PIXEL_COUNT - i,
        {
            let p = self.frame.pixels[i];
            out[i] = (p.r, p.g, p.b);
            i += 1;
        }
        out
    }

    /// Answers a color query: reads every pixel back in caller order through
    /// the same exclusive access path as edits, which requests a render pass,
    /// so a query also refreshes the strip.
    pub fn query_colors(&mut self) -> (r: [(u8, u8, u8); PIXEL_COUNT])
        ensures
            final(self).spec_frame() == old(self).spec_frame(),
            final(self).spec_pending(),
            forall|i: int| 0 <= i < PIXEL_COUNT ==> r@[i] == spec_rgb(old(self).spec_frame()@[i]),
    {
        let colors = self.current_colors();
        self.notifier.notify();
        colors
    }

    /// Whether a render pass has been requested and not yet picked up; the
    /// runtime mirrors this into its cross-task wake signal.
    pub fn render_pending(&self) -> (r: bool)
        ensures
            r == self.spec_pending(),
    {
        self.notifier.pending
    }
}

} // verus!
