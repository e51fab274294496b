//! The render loop, as an explicit state machine.
//!
//! The loop cycles through waiting for a change, snapshotting the store,
//! encoding the snapshot into a staging buffer, transmitting the staged
//! descriptors one pixel-sized chunk at a time, and holding the line idle
//! for the protocol's reset gap. The unverified runtime around the library
//! performs the suspensions — waiting on the notifier, one hardware
//! submission per chunk, the reset sleep — while every decision between
//! those suspension points is made here: [`RenderLoop::next_action`] says
//! what to do, [`RenderLoop::begin_frame`], [`RenderLoop::chunk_done`] and
//! [`RenderLoop::delay_done`] record what happened.

use vstd::prelude::*;

use crate::frame::{FrameBuffer, PIXEL_COUNT, Pixel};
use crate::pulse::{
    Correction, PulseDescriptor, lemma_apply_bounds, lemma_encode_decode_byte, spec_decode_byte,
    spec_encode_byte, write_pulse_codes,
};

verus! {

/// Descriptors per transmitted chunk: 24 bit pulses (3 channels of 8 bits)
/// plus the end marker. The transmitter's internal buffer holds only about
/// 48 descriptors, far short of a full frame, so the frame is fed to it one
/// such chunk per pixel.
pub const CHUNK_LEN: usize = 25;

/// Calibration and configuration the render loop depends on but does not
/// define; supplied once at initialization, so the pulse timings can be
/// retuned without touching the loop.
#[derive(Clone, Copy, Debug)]
pub struct RenderConfig {
    /// The pulse transmitted for a clear bit.
    pub zero_pulse: PulseDescriptor,
    /// The pulse transmitted for a set bit.
    pub one_pulse: PulseDescriptor,
    /// Per-channel correction factors, indexed in wire order: green, red,
    /// blue.
    pub channel_correction: [Correction; 3],
    /// Minimum idle time after a full frame, in microseconds, so the strip
    /// latches the data.
    pub reset_delay_us: u64,
}

impl RenderConfig {
    /// Calibration sanity: the two bit pulses are distinguishable and fit
    /// the packed register layout, and every correction factor is a rational
    /// in (0, 1].
    pub open spec fn wf(self) -> bool {
        &&& self.zero_pulse != self.one_pulse
        &&& self.zero_pulse.wf()
        &&& self.one_pulse.wf()
        &&& forall|i: int| 0 <= i < 3 ==> self.channel_correction@[i].wf()
    }
}

/// The corrected bytes of one pixel, in wire order (green, red, blue).
pub open spec fn spec_corrected_pixel(p: Pixel, cfg: RenderConfig) -> Seq<u8> {
    seq![
        cfg.channel_correction@[0].spec_apply(p.g) as u8,
        cfg.channel_correction@[1].spec_apply(p.r) as u8,
        cfg.channel_correction@[2].spec_apply(p.b) as u8,
    ]
}

/// The 25 descriptors that transmit one pixel: each corrected channel byte
/// expanded most-significant-bit first, then the end marker.
pub open spec fn spec_encode_pixel(p: Pixel, cfg: RenderConfig) -> Seq<PulseDescriptor> {
    spec_encode_byte(spec_corrected_pixel(p, cfg)[0], cfg.zero_pulse, cfg.one_pulse)
        + spec_encode_byte(spec_corrected_pixel(p, cfg)[1], cfg.zero_pulse, cfg.one_pulse)
        + spec_encode_byte(spec_corrected_pixel(p, cfg)[2], cfg.zero_pulse, cfg.one_pulse)
        + seq![PulseDescriptor::spec_end_marker()]
}

/// The full staged frame: one 25-descriptor chunk per pixel, in pixel order.
pub open spec fn spec_encode_frame(frame: Seq<Pixel>, cfg: RenderConfig) -> Seq<
    Seq<PulseDescriptor>,
> {
    Seq::new(frame.len(), |i: int| spec_encode_pixel(frame[i], cfg))
}

/// A transmission fault reported by the hardware; `code` carries the
/// peripheral's raw error value for the operator-facing log.
#[derive(Clone, Copy, PartialEq, Eq, Structural, Debug)]
pub struct TransmitError {
    pub code: u32,
}

/// Where the render loop stands in its cycle.
#[derive(Clone, Copy, PartialEq, Eq, Structural, Debug)]
pub enum RenderState {
    /// Suspended until a change notification arrives.
    WaitingForChange,
    /// A frame is staged; chunks `0 .. next_chunk` have been submitted and
    /// acknowledged, chunk `next_chunk` is up next.
    Transmitting { next_chunk: usize },
    /// Every chunk is out; the line must stay idle for the reset gap.
    ResetDelay,
}

/// What the driver of the loop must do next.
#[derive(Clone, Copy, PartialEq, Eq, Structural, Debug)]
pub enum RenderAction {
    /// Suspend on the change notifier, then snapshot the store and stage the
    /// snapshot with `begin_frame`.
    Wait,
    /// Submit the staged chunk with this index to the transmitter and report
    /// the outcome through `chunk_done`.
    Submit { index: usize },
    /// Hold the line idle for at least this many microseconds, then call
    /// `delay_done`.
    Delay { us: u64 },
}

/// The render loop's state: its calibration, the staging buffer it owns
/// exclusively and never shares, and its position in the cycle.
pub struct RenderLoop {
    pub config: RenderConfig,
    pub staging: Vec<Vec<PulseDescriptor>>,
    pub state: RenderState,
}

impl RenderLoop {
    /// The staged chunks, as mathematical sequences.
    pub open spec fn spec_staged(self) -> Seq<Seq<PulseDescriptor>> {
        Seq::new(self.staging@.len(), |i: int| self.staging@[i]@)
    }

    /// The calibration is sane, and while transmitting, the chunk cursor
    /// stays inside the fully staged frame.
    pub open spec fn wf(self) -> bool {
        &&& self.config.wf()
        &&& (self.state matches RenderState::Transmitting { next_chunk } ==> next_chunk
            < PIXEL_COUNT && self.staging@.len() == PIXEL_COUNT)
    }

    /// A fresh loop: nothing staged, waiting for the first change.
    pub fn new(config: RenderConfig) -> (r: RenderLoop)
        requires
            config.wf(),
        ensures
            r.wf(),
            r.config == config,
            r.state == RenderState::WaitingForChange,
    {
        RenderLoop { config, staging: Vec::new(), state: RenderState::WaitingForChange }
    }

    /// Encodes one consistent snapshot into the staging buffer and starts
    /// its transmission. The snapshot was copied out of the store before the
    /// call, so the store is free for producers while the slow encode and
    /// transmit work runs.
    pub fn begin_frame(&mut self, frame: &FrameBuffer)
        requires
            old(self).wf(),
            old(self).state == RenderState::WaitingForChange,
        ensures
            final(self).wf(),
            final(self).config == old(self).config,
            final(self).spec_staged() == spec_encode_frame(frame@, old(self).config),
            final(self).state == (RenderState::Transmitting { next_chunk: 0 }),
    {
        let ghost cfg = self.config;
        self.staging = Vec::new();
        let mut pi: usize = 0;
        while pi < PIXEL_COUNT
            invariant
                pi <= PIXEL_COUNT,
                self.config == cfg,
                cfg.wf(),
                self.staging@.len() == pi,
                forall|i: int|
                    0 <= i < pi ==> self.staging@[i]@ == spec_encode_pixel(frame@[i], cfg),
            decreases PIXEL_COUNT - pi,
        {
            let p = frame.pixels[pi];
            let codes_g = write_pulse_codes(
                p.g,
                &self.config.channel_correction[0],
                self.config.zero_pulse,
                self.config.one_pulse,
            );
            let codes_r = write_pulse_codes(
                p.r,
                &self.config.channel_correction[1],
                self.config.zero_pulse,
                self.config.one_pulse,
            );
            let codes_b = write_pulse_codes(
                p.b,
                &self.config.channel_correction[2],
                self.config.zero_pulse,
                self.config.one_pulse,
            );
            let mut chunk: Vec<PulseDescriptor> = Vec::new();
            push_codes(&mut chunk, &codes_g);
            push_codes(&mut chunk, &codes_r);
            push_codes(&mut chunk, &codes_b);
            chunk.push(PulseDescriptor::end_marker());
            proof {
                assert(chunk@ =~= spec_encode_pixel(frame@[pi as int], cfg));
            }
            self.staging.push(chunk);
            pi += 1;
        }
        self.state = RenderState::Transmitting { next_chunk: 0 };
        proof {
            assert(self.spec_staged() =~= spec_encode_frame(frame@, cfg));
        }
    }

    /// The decision function of the cycle: what the driver must do in the
    /// current state.
    pub fn next_action(&self) -> (a: RenderAction)
        requires
            self.wf(),
        ensures
            self.state == RenderState::WaitingForChange ==> a == RenderAction::Wait,
            self.state matches RenderState::Transmitting { next_chunk } ==> a == (
            RenderAction::Submit { index: next_chunk }),
            self.state == RenderState::ResetDelay ==> a == (RenderAction::Delay {
                us: self.config.reset_delay_us,
            }),
    {
        match self.state {
            RenderState::WaitingForChange => RenderAction::Wait,
            RenderState::Transmitting { next_chunk } => RenderAction::Submit { index: next_chunk },
            RenderState::ResetDelay => RenderAction::Delay { us: self.config.reset_delay_us },
        }
    }

    /// The staged chunk with the given index, ready for submission to the
    /// transmitter.
    pub fn chunk(&self, index: usize) -> (r: &Vec<PulseDescriptor>)
        requires
            index < self.staging@.len(),
        ensures
            r@ == self.spec_staged()[index as int],
    {
        &self.staging[index]
    }

    /// Records the transmitter's outcome for the chunk just submitted.
    ///
    /// On success the loop advances to the next chunk, or to the reset delay
    /// once all of them are out. On a fault the loop abandons the rest of
    /// the frame — none of the remaining chunks is attempted, since the
    /// strip's state is corrupt either way — hands the fault back to the
    /// driver to surface, and returns to waiting; the next notification
    /// starts a fresh full render that supersedes the corrupt frame.
    pub fn chunk_done(&mut self, outcome: Result<(), TransmitError>) -> (r: Result<
        (),
        TransmitError,
    >)
        requires
            old(self).wf(),
            old(self).state matches RenderState::Transmitting { next_chunk },
        ensures
            final(self).wf(),
            r == outcome,
            final(self).config == old(self).config,
            final(self).staging == old(self).staging,
            outcome is Err ==> final(self).state == RenderState::WaitingForChange,
            outcome is Ok ==> final(self).state == (if old(self).state->next_chunk + 1
                == PIXEL_COUNT {
                RenderState::ResetDelay
            } else {
                RenderState::Transmitting {
                    next_chunk: (old(self).state->next_chunk + 1) as usize,
                }
            }),
    {
        match outcome {
            Ok(_) => {
                let i = match self.state {
                    RenderState::Transmitting { next_chunk } => next_chunk,
                    _ => 0,
                };
                if i + 1 == PIXEL_COUNT {
                    self.state = RenderState::ResetDelay;
                } else {
                    self.state = RenderState::Transmitting { next_chunk: i + 1 };
                }
            },
            Err(_) => {
                self.state = RenderState::WaitingForChange;
            },
        }
        outcome
    }

    /// Records that the reset gap has elapsed: the cycle is complete and the
    /// loop waits for the next change.
    pub fn delay_done(&mut self)
        requires
            old(self).wf(),
            old(self).state == RenderState::ResetDelay,
        ensures
            final(self).wf(),
            final(self).config == old(self).config,
            final(self).staging == old(self).staging,
            final(self).state == RenderState::WaitingForChange,
    {
        self.state = RenderState::WaitingForChange;
    }
}

/// Appends the 8 descriptors of one encoded channel to a chunk.
fn push_codes(chunk: &mut Vec<PulseDescriptor>, codes: &[PulseDescriptor; 8])
    ensures
        final(chunk)@ == old(chunk)@ + codes@,
{
    let mut j: usize = 0;
    while j < 8
        invariant
            j <= 8,
            chunk@ == old(chunk)@ + codes@.take(j as int),
        decreases 8 - j,
    {
        let c = codes[j];
        proof {
            assert(old(chunk)@ + codes@.take(j as int + 1) =~= (old(chunk)@ + codes@.take(
                j as int,
            )).push(codes@[j as int]));
        }
        chunk.push(c);
        j += 1;
    }
    proof {
        assert(codes@.take(8) =~= codes@);
    }
}

/// Every pixel stages exactly [`CHUNK_LEN`] descriptors: 24 bit pulses and
/// the end marker.
pub proof fn lemma_pixel_chunk_len(p: Pixel, cfg: RenderConfig)
    ensures
        spec_encode_pixel(p, cfg).len() == CHUNK_LEN,
{
}

/// Frame-level round-trip law: for every frame and well-formed calibration,
/// reconstructing each channel byte from which calibration pulse the staged
/// descriptors equal gives back exactly the corrected bytes that were
/// encoded. The correction itself is lossy by design, so the law speaks of
/// the corrected bytes, not the raw ones.
pub proof fn lemma_encode_decode_frame(frame: Seq<Pixel>, cfg: RenderConfig)
    requires
        cfg.wf(),
    ensures
        forall|i: int, ch: int|
            0 <= i < frame.len() && 0 <= ch < 3 ==> spec_decode_byte(
                #[trigger] spec_encode_frame(frame, cfg)[i].subrange(8 * ch, 8 * ch + 8),
                cfg.one_pulse,
            ) == spec_corrected_pixel(frame[i], cfg)[ch],
{
    assert forall|i: int, ch: int| 0 <= i < frame.len() && 0 <= ch < 3 implies spec_decode_byte(
        #[trigger] spec_encode_frame(frame, cfg)[i].subrange(8 * ch, 8 * ch + 8),
        cfg.one_pulse,
    ) == spec_corrected_pixel(frame[i], cfg)[ch] by {
        let p = frame[i];
        let bytes = spec_corrected_pixel(p, cfg);
        let chunk = spec_encode_frame(frame, cfg)[i];
        assert(chunk == spec_encode_pixel(p, cfg));
        lemma_apply_bounds(cfg.channel_correction@[0], p.g);
        lemma_apply_bounds(cfg.channel_correction@[1], p.r);
        lemma_apply_bounds(cfg.channel_correction@[2], p.b);
        assert(chunk.subrange(8 * ch, 8 * ch + 8) =~= spec_encode_byte(
            bytes[ch],
            cfg.zero_pulse,
            cfg.one_pulse,
        ));
        lemma_encode_decode_byte(bytes[ch], cfg.zero_pulse, cfg.one_pulse);
    }
}

} // verus!
