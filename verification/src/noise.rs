//! The state of a spectral noise source.
//!
//! A source is made once the sample rate is known. The length of a frame is
//! not known until the first period arrives: that period sizes the working
//! memory, and every later period must bring a buffer of the same length.
//! Nothing is sized after the first period.
//!
//! A period runs in stages. The source decides whether the period may run
//! ([`Noise::configure`]), lends its working memory to the transforms
//! ([`Noise::buffers`]), silences what lies outside the passband
//! ([`Noise::band_limit`]) and counts the frames that were produced
//! ([`Noise::advance`]). Drawing the samples, transforming them and mixing
//! the result into the output is the caller's part, and so is the type of a
//! sample: the source only stores samples, and writes silence.
//!
//! The passband is fixed, from [`LOW_CUTOFF_HZ`] to [`HIGH_CUTOFF_HZ`]. A
//! sample rate too low for it is not refused: the masks do what they do for
//! any cutoff, and less, or nothing, comes through.

use vstd::prelude::*;
use crate::passband::{
    band_limited, high_pass_filter, lemma_band_limited_bins,
    lemma_passband_is_the_band_and_its_mirror, low_pass_filter, silent, HIGH_CUTOFF_HZ,
    LOW_CUTOFF_HZ,
};

verus! {

/// Why a period was refused.
#[derive(Clone, Copy, Debug, PartialEq, Eq, Structural)]
pub enum FillError {
    /// The output buffer holds no frame.
    EmptyBuffer,
    /// The source was made for a sample rate of zero.
    ZeroSampleRate,
    /// The output buffer is not as long as the first one was.
    LengthMismatch,
}

impl FillError {
    /// The refusal in words.
    pub fn message(&self) -> (text: &'static str)
        ensures
            text@ == match *self {
                FillError::EmptyBuffer => "empty output buffer"@,
                FillError::ZeroSampleRate => "sample rate is zero"@,
                FillError::LengthMismatch => "buffer length mismatch"@,
            },
    {
        match self {
            FillError::EmptyBuffer => "empty output buffer",
            FillError::ZeroSampleRate => "sample rate is zero",
            FillError::LengthMismatch => "buffer length mismatch",
        }
    }
}

/// What a period found when it began.
#[derive(Clone, Copy, Debug, PartialEq, Eq, Structural)]
pub enum Setup {
    /// This is the first period: the working memory was sized just now, and
    /// transforms of that length are needed from here on.
    Created,
    /// The working memory was sized by an earlier period.
    Reused,
}

/// What a [`Noise`] source stands for.
pub struct NoiseView<T> {
    /// The sample rate the source was made for, in Hz.
    pub sample_rate: nat,
    /// The value that a silenced bin holds.
    pub silence: T,
    /// The length of a frame, once the first period has set it.
    pub frame_length: Option<nat>,
    /// How many frames the finished periods have produced.
    pub offset: nat,
    /// The samples, or the spectrum, of the period at hand.
    pub buffer: Seq<T>,
    /// The working memory of the transforms.
    pub scratch: Seq<T>,
}

impl<T> NoiseView<T> {
    /// Before the first period there is no working memory; from then on both
    /// halves of it are exactly one frame long, and a frame is not empty.
    pub open spec fn wf(self) -> bool {
        match self.frame_length {
            None => self.buffer.len() == 0 && self.scratch.len() == 0,
            Some(n) => 0 < n && 0 < self.sample_rate && self.buffer.len() == n
                && self.scratch.len() == n,
        }
    }

    /// Two states of a source that agree on everything that is fixed for its
    /// lifetime: the sample rate, what silence is, the frame length, and the
    /// lengths of the buffer and of the scratch memory.
    pub open spec fn same_frame(self, other: NoiseView<T>) -> bool {
        &&& self.sample_rate == other.sample_rate
        &&& self.silence == other.silence
        &&& self.frame_length == other.frame_length
        &&& self.buffer.len() == other.buffer.len()
        &&& self.scratch.len() == other.scratch.len()
    }

    /// What [`Noise::configure`] answers to a period of `frame_length` frames.
    pub open spec fn admits(self, frame_length: nat) -> Result<Setup, FillError> {
        if frame_length == 0 {
            Err(FillError::EmptyBuffer)
        } else {
            match self.frame_length {
                Some(n) => if n == frame_length {
                    Ok(Setup::Reused)
                } else {
                    Err(FillError::LengthMismatch)
                },
                None => if self.sample_rate == 0 {
                    Err(FillError::ZeroSampleRate)
                } else {
                    Ok(Setup::Created)
                },
            }
        }
    }

    /// The source after [`Noise::configure`] was asked for a period of
    /// `frame_length` frames: sized, if this was the first period that could
    /// run, and otherwise as it was.
    pub open spec fn configured(self, frame_length: nat) -> NoiseView<T> {
        if self.admits(frame_length) == Ok::<Setup, FillError>(Setup::Created) {
            NoiseView {
                frame_length: Some(frame_length),
                buffer: silent(frame_length, self.silence),
                scratch: silent(frame_length, self.silence),
                ..self
            }
        } else {
            self
        }
    }

    /// The source after the passband masks were laid over its buffer.
    pub open spec fn band_limited(self) -> NoiseView<T> {
        NoiseView {
            buffer: band_limited(
                self.buffer,
                self.silence,
                LOW_CUTOFF_HZ as int,
                HIGH_CUTOFF_HZ as int,
                self.sample_rate as int,
            ),
            ..self
        }
    }

    /// The source after a finished period was counted. The count starts
    /// over from zero once it has passed `usize::MAX`.
    pub open spec fn advanced(self) -> NoiseView<T> {
        match self.frame_length {
            None => self,
            Some(n) => NoiseView {
                offset: if self.offset + n > usize::MAX {
                    (self.offset + n - usize::MAX - 1) as nat
                } else {
                    self.offset + n
                },
                ..self
            },
        }
    }
}

/// A source of band-limited noise, for samples of type `T`.
pub struct Noise<T> {
    offset: usize,
    buffer_size: Option<usize>,
    sample_rate: u32,
    silence: T,
    buffer: Vec<T>,
    scratch: Vec<T>,
}

impl<T> View for Noise<T> {
    type V = NoiseView<T>;

    closed spec fn view(&self) -> NoiseView<T> {
        NoiseView {
            sample_rate: self.sample_rate as nat,
            silence: self.silence,
            frame_length: match self.buffer_size {
                None => None,
                Some(n) => Some(n as nat),
            },
            offset: self.offset as nat,
            buffer: self.buffer@,
            scratch: self.scratch@,
        }
    }
}

/// A frame of `n` samples of silence, allocated once and to measure.
fn silent_frame<T: Copy>(n: usize, silence: T) -> (frame: Vec<T>)
    ensures
        frame@ == silent(n as nat, silence),
{
    let mut frame: Vec<T> = Vec::with_capacity(n);
    let mut i: usize = 0;
    while i < n
        invariant
            i <= n,
            frame@ == silent(i as nat, silence),
        decreases n - i,
    {
        frame.push(silence);
        i += 1;
    }
    frame
}

impl<T: Copy> Noise<T> {
    /// A source for the given sample rate, in Hz, whose silenced bins hold
    /// `silence`. It owns no working memory yet.
    pub fn new(sample_rate: u32, silence: T) -> (noise: Self)
        ensures
            noise@.wf(),
            noise@ == (NoiseView {
                sample_rate: sample_rate as nat,
                silence,
                frame_length: None,
                offset: 0,
                buffer: Seq::empty(),
                scratch: Seq::empty(),
            }),
    {
        Noise {
            offset: 0,
            buffer_size: None,
            sample_rate,
            silence,
            buffer: Vec::new(),
            scratch: Vec::new(),
        }
    }

    /// The sample rate the source was made for, in Hz.
    pub fn sample_rate(&self) -> (hz: u32)
        ensures
            hz == self@.sample_rate,
    {
        self.sample_rate
    }

    /// The length of a frame, once the first period has set it.
    pub fn frame_length(&self) -> (length: Option<usize>)
        ensures
            match length {
                None => self@.frame_length is None,
                Some(n) => self@.frame_length == Some(n as nat),
            },
    {
        self.buffer_size
    }

    /// How many frames the finished periods have produced.
    pub fn offset(&self) -> (frames: usize)
        ensures
            frames == self@.offset,
    {
        self.offset
    }

    /// Begins a period for an output buffer of `frame_length` frames.
    ///
    /// An empty buffer is refused. The first period that can run fixes the
    /// frame length and sizes the working memory, all of it silence; a source
    /// made for a sample rate of zero never gets that far. Every later period
    /// must have the same length, and finds the source as the last one left
    /// it. A refused period changes nothing.
    pub fn configure(&mut self, frame_length: usize) -> (setup: Result<Setup, FillError>)
        ensures
            setup == old(self)@.admits(frame_length as nat),
            final(self)@ == old(self)@.configured(frame_length as nat),
            old(self)@.wf() ==> final(self)@.wf(),
    {
        if frame_length == 0 {
            return Err(FillError::EmptyBuffer);
        }
        match self.buffer_size {
            Some(n) => {
                if n == frame_length {
                    Ok(Setup::Reused)
                } else {
                    Err(FillError::LengthMismatch)
                }
            },
            None => {
                if self.sample_rate == 0 {
                    Err(FillError::ZeroSampleRate)
                } else {
                    self.buffer = silent_frame(frame_length, self.silence);
                    self.scratch = silent_frame(frame_length, self.silence);
                    self.buffer_size = Some(frame_length);
                    Ok(Setup::Created)
                }
            },
        }
    }

    /// Lends out the buffer and the scratch memory, in this order, for a
    /// transform to work in. Whatever is written to them is what the source
    /// holds afterwards. Their lengths stay as they are: a slice cannot grow
    /// or shrink.
    pub fn buffers(&mut self) -> (parts: (&mut [T], &mut [T]))
        ensures
            parts.0@ == old(self)@.buffer,
            parts.1@ == old(self)@.scratch,
            final(self)@ == (NoiseView {
                buffer: final(parts.0)@,
                scratch: final(parts.1)@,
                ..old(self)@
            }),
    {
        (self.buffer.as_mut_slice(), self.scratch.as_mut_slice())
    }

    /// Takes the buffer for a spectrum and silences every bin outside the
    /// passband: first those above [`HIGH_CUTOFF_HZ`], then those below
    /// [`LOW_CUTOFF_HZ`], each with its mirror image.
    pub fn band_limit(&mut self)
        ensures
            final(self)@ == old(self)@.band_limited(),
            old(self)@.wf() ==> final(self)@.wf(),
    {
        low_pass_filter(
            self.buffer.as_mut_slice(),
            self.silence,
            HIGH_CUTOFF_HZ,
            self.sample_rate,
        );
        high_pass_filter(
            self.buffer.as_mut_slice(),
            self.silence,
            LOW_CUTOFF_HZ,
            self.sample_rate,
        );
    }

    /// Counts the frames of a finished period. Before the first period there
    /// is nothing to count.
    pub fn advance(&mut self)
        ensures
            final(self)@ == old(self)@.advanced(),
            old(self)@.wf() ==> final(self)@.wf(),
    {
        match self.buffer_size {
            None => {},
            Some(n) => {
                self.offset = self.offset.wrapping_add(n);
            },
        }
    }
}

/// What [`Noise::band_limit`] does to each bin when the sample rate leaves
/// room for the passband and its mirror image, that is from
/// `LOW_CUTOFF_HZ + HIGH_CUTOFF_HZ` up: a bin from `LOW_CUTOFF_HZ` to
/// `HIGH_CUTOFF_HZ`, or in the mirror image of that band, keeps its value,
/// the edges included; every other bin holds silence, whatever it held
/// before.
pub proof fn lemma_band_limit_bins<T>(source: NoiseView<T>, bin: int)
    requires
        0 <= bin < source.buffer.len(),
        LOW_CUTOFF_HZ + HIGH_CUTOFF_HZ <= source.sample_rate,
    ensures
        source.band_limited().buffer.len() == source.buffer.len(),
        source.band_limited().buffer[bin] == ({
            let bins = source.buffer.len() as int;
            let rate = source.sample_rate as int;
            let position = bin * rate;
            if LOW_CUTOFF_HZ * bins <= position <= HIGH_CUTOFF_HZ * bins || (rate
                - HIGH_CUTOFF_HZ) * bins <= position <= (rate - LOW_CUTOFF_HZ) * bins {
                source.buffer[bin]
            } else {
                source.silence
            }
        }),
{
    let bins = source.buffer.len() as int;
    let rate = source.sample_rate as int;
    lemma_band_limited_bins(
        source.buffer,
        source.silence,
        LOW_CUTOFF_HZ as int,
        HIGH_CUTOFF_HZ as int,
        rate,
        bin,
    );
    lemma_passband_is_the_band_and_its_mirror(
        bin,
        bins,
        rate,
        LOW_CUTOFF_HZ as int,
        HIGH_CUTOFF_HZ as int,
    );
}

/// The first period that is accepted settles the frame length: the period
/// after it is accepted again if it has the same length, and is refused if it
/// has another; either way it finds the working memory as it was left, with
/// nothing sized anew.
pub proof fn lemma_first_period_settles_the_frame<T>(
    source: NoiseView<T>,
    frame_length: nat,
    other: nat,
)
    requires
        source.admits(frame_length) is Ok,
        other != frame_length,
    ensures
        ({
            let settled = source.configured(frame_length);
            &&& settled.frame_length == Some(frame_length)
            &&& settled.admits(frame_length) == Ok::<Setup, FillError>(Setup::Reused)
            &&& settled.configured(frame_length) == settled
            &&& settled.admits(other) == Err::<Setup, FillError>(
                if other == 0 {
                    FillError::EmptyBuffer
                } else {
                    FillError::LengthMismatch
                },
            )
            &&& settled.configured(other) == settled
        }),
{
}

/// Once the frame length is set, nothing that a period does changes it, nor
/// the lengths of the buffer and of the scratch memory, nor the sample rate.
pub proof fn lemma_frame_is_fixed<T>(source: NoiseView<T>, frame_length: nat)
    requires
        source.frame_length is Some,
    ensures
        source.configured(frame_length) == source,
        source.band_limited().same_frame(source),
        source.advanced().same_frame(source),
{
}

/// A source that is well formed stays so through every stage of a period.
pub proof fn lemma_stages_keep_wf<T>(source: NoiseView<T>, frame_length: nat)
    requires
        source.wf(),
    ensures
        source.configured(frame_length).wf(),
        source.band_limited().wf(),
        source.advanced().wf(),
{
}

} // verus!
