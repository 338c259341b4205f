//! PCM samples and what is needed to play them.

use vstd::prelude::*;

verus! {

/// 16-bit signed PCM samples, mono.
#[derive(Debug, Clone, PartialEq, Eq)]
pub struct RawWaveSamples(pub Vec<i16>);

impl View for RawWaveSamples {
    type V = Seq<i16>;

    open spec fn view(&self) -> Seq<i16> {
        self.0@
    }
}

impl RawWaveSamples {
    pub fn new(samples: Vec<i16>) -> (r: RawWaveSamples)
        ensures
            r@ == samples@,
    {
        RawWaveSamples(samples)
    }

    pub fn len(&self) -> (n: usize)
        ensures
            n == self@.len(),
    {
        self.0.len()
    }

    pub fn is_empty(&self) -> (b: bool)
        ensures
            b == (self@.len() == 0),
    {
        self.0.len() == 0
    }

    pub fn as_vec(&self) -> (v: &Vec<i16>)
        ensures
            v@ == self@,
    {
        &self.0
    }

    pub fn into_vec(self) -> (v: Vec<i16>)
        ensures
            v@ == self@,
    {
        self.0
    }
}

/// What a caller needs to write the samples into a PCM container.
#[derive(Debug, Clone, Copy, PartialEq, Eq, Structural)]
pub struct PiperWaveInfo {
    pub sample_rate: usize,
    pub num_channels: usize,
    pub sample_width: usize,
}

/// The outcome of one synthesis call: the samples, their format and, where it
/// was measured, the time the inference took in milliseconds.
#[derive(Debug, Clone, PartialEq, Eq)]
pub struct PiperWaveSamples {
    samples: RawWaveSamples,
    info: PiperWaveInfo,
    inference_ms: Option<u64>,
}

impl PiperWaveSamples {
    pub closed spec fn spec_samples(&self) -> Seq<i16> {
        self.samples@
    }

    pub closed spec fn spec_info(&self) -> PiperWaveInfo {
        self.info
    }

    pub closed spec fn spec_inference_ms(&self) -> Option<u64> {
        self.inference_ms
    }

    /// Mono, two bytes per sample, at the given rate.
    pub fn new(samples: RawWaveSamples, sample_rate: usize, inference_ms: Option<u64>) -> (r:
        PiperWaveSamples)
        ensures
            r.spec_samples() == samples@,
            r.spec_info() == (PiperWaveInfo { sample_rate, num_channels: 1, sample_width: 2 }),
            r.spec_inference_ms() == inference_ms,
    {
        PiperWaveSamples {
            samples,
            info: PiperWaveInfo { sample_rate, num_channels: 1, sample_width: 2 },
            inference_ms,
        }
    }

    pub fn samples(&self) -> (s: &RawWaveSamples)
        ensures
            s@ == self.spec_samples(),
    {
        &self.samples
    }

    pub fn into_samples(self) -> (s: RawWaveSamples)
        ensures
            s@ == self.spec_samples(),
    {
        self.samples
    }

    pub fn info(&self) -> (i: PiperWaveInfo)
        ensures
            i == self.spec_info(),
    {
        self.info
    }

    pub fn sample_rate(&self) -> (r: usize)
        ensures
            r == self.spec_info().sample_rate,
    {
        self.info.sample_rate
    }

    pub fn inference_ms(&self) -> (ms: Option<u64>)
        ensures
            ms == self.spec_inference_ms(),
    {
        self.inference_ms
    }

    pub fn len(&self) -> (n: usize)
        ensures
            n == self.spec_samples().len(),
    {
        self.samples.len()
    }

    pub fn is_empty(&self) -> (b: bool)
        ensures
            b == (self.spec_samples().len() == 0),
    {
        self.samples.is_empty()
    }
}

} // verus!
