//! What the playback sink does to a block of audio before it reaches the
//! output device: every sample is scaled by the gain that is current when the
//! block is rendered.
//!
//! The gain is held in hundredths, from 0 (silence) to 100 (unchanged), and
//! samples are signed 16-bit integers, so the scaling is exact integer
//! arithmetic: the product is divided by 100 and rounded towards zero.

use vstd::prelude::*;

verus! {

/// A volume multiplier between 0 and 1, in hundredths.
#[derive(Clone, Copy, Debug, PartialEq, Eq, Structural)]
pub struct Gain {
    hundredths: u8,
}

impl Gain {
    #[verifier::type_invariant]
    spec fn in_range(self) -> bool {
        self.hundredths <= 100
    }

    /// The multiplier in hundredths.
    pub closed spec fn value(self) -> nat {
        self.hundredths as nat
    }

    /// The gain of `hundredths` hundredths, if that is at most 100.
    pub fn new(hundredths: u8) -> (gain: Option<Gain>)
        ensures
            hundredths <= 100 <==> gain is Some,
            gain matches Some(g) ==> g.value() == hundredths,
    {
        if hundredths <= 100 {
            Some(Gain { hundredths })
        } else {
            None
        }
    }

    /// The gain that leaves every sample unchanged.
    pub fn full() -> (gain: Gain)
        ensures
            gain.value() == 100,
    {
        Gain { hundredths: 100 }
    }

    /// The gain that silences every sample.
    pub fn silent() -> (gain: Gain)
        ensures
            gain.value() == 0,
    {
        Gain { hundredths: 0 }
    }

    pub fn hundredths(self) -> (hundredths: u8)
        ensures
            hundredths == self.value(),
            hundredths <= 100,
    {
        proof {
            use_type_invariant(&self);
        }
        self.hundredths
    }
}

/// A sample scaled by a gain given in hundredths, rounded towards zero.
pub open spec fn scaled(sample: int, gain: nat) -> int {
    if sample >= 0 {
        sample * gain / 100
    } else {
        -((-sample) * gain / 100)
    }
}

/// Scales one sample by `gain`.
pub fn scale_sample(sample: i16, gain: Gain) -> (out: i16)
    ensures
        out == scaled(sample as int, gain.value()),
{
    proof {
        use_type_invariant(&gain);
    }
    let g: i32 = gain.hundredths as i32;
    let s: i32 = sample as i32;
    if s >= 0 {
        assert(0 <= s * g <= 32767 * 100) by (nonlinear_arith)
            requires
                0 <= s <= 32767,
                0 <= g <= 100,
        ;
        let product: i32 = s * g;
        (product / 100) as i16
    } else {
        let magnitude: i32 = -s;
        assert(0 <= magnitude * g <= 32768 * 100) by (nonlinear_arith)
            requires
                0 <= magnitude <= 32768,
                0 <= g <= 100,
        ;
        let product: i32 = magnitude * g;
        (-(product / 100)) as i16
    }
}

/// One block of decoded audio: interleaved samples in the format that the
/// stream declares.
#[derive(Debug, PartialEq, Eq)]
pub struct PcmBlock {
    pub channels: u16,
    pub sample_rate: u32,
    pub samples: Vec<i16>,
}

/// The contents of a [`PcmBlock`].
pub struct PcmBlockView {
    pub channels: u16,
    pub sample_rate: u32,
    pub samples: Seq<i16>,
}

impl View for PcmBlock {
    type V = PcmBlockView;

    open spec fn view(&self) -> PcmBlockView {
        PcmBlockView {
            channels: self.channels,
            sample_rate: self.sample_rate,
            samples: self.samples@,
        }
    }
}

impl PcmBlockView {
    /// The block as the sink renders it under a gain given in hundredths:
    /// the same format and length, every sample scaled.
    pub open spec fn rendered(self, gain: nat) -> PcmBlockView {
        PcmBlockView {
            channels: self.channels,
            sample_rate: self.sample_rate,
            samples: Seq::new(self.samples.len(), |i: int| scaled(self.samples[i] as int, gain) as i16),
        }
    }
}

impl PcmBlock {
    /// Renders the block under `gain`, the gain read at this moment: what is
    /// handed to the output device.
    pub fn render(&self, gain: Gain) -> (out: PcmBlock)
        ensures
            out@ == self@.rendered(gain.value()),
    {
        let mut samples: Vec<i16> = Vec::new();
        let mut i: usize = 0;
        while i < self.samples.len()
            invariant
                i <= self.samples.len(),
                samples@.len() == i,
                forall|k: int| 0 <= k < i ==> samples@[k] == scaled(self.samples@[k] as int, gain.value()),
            decreases self.samples.len() - i,
        {
            samples.push(scale_sample(self.samples[i], gain));
            i += 1;
        }
        let out = PcmBlock { channels: self.channels, sample_rate: self.sample_rate, samples };
        assert(out@.samples =~= self@.rendered(gain.value()).samples);
        out
    }
}

/// At full gain the sink leaves a sample as it is.
pub proof fn full_gain_keeps_sample(sample: int)
    ensures
        scaled(sample, 100) == sample,
{
}

/// At zero gain the sink renders silence.
pub proof fn zero_gain_silences_sample(sample: int)
    ensures
        scaled(sample, 0) == 0,
{
}

/// Scaling keeps the sign of a sample and never makes it louder, so a scaled
/// 16-bit sample is a 16-bit sample.
pub proof fn scaling_never_amplifies(sample: int, gain: nat)
    requires
        gain <= 100,
    ensures
        sample >= 0 ==> 0 <= scaled(sample, gain) <= sample,
        sample <= 0 ==> sample <= scaled(sample, gain) <= 0,
{
    if sample >= 0 {
        assert(0 <= sample * gain <= sample * 100) by (nonlinear_arith)
            requires
                sample >= 0,
                0 <= gain <= 100,
        ;
    } else {
        assert(0 <= (-sample) * gain <= (-sample) * 100) by (nonlinear_arith)
            requires
                sample < 0,
                0 <= gain <= 100,
        ;
    }
}

/// A higher gain never renders a sample quieter.
pub proof fn scaling_grows_with_gain(sample: int, low: nat, high: nat)
    requires
        low <= high,
    ensures
        sample >= 0 ==> scaled(sample, low) <= scaled(sample, high),
        sample <= 0 ==> scaled(sample, high) <= scaled(sample, low),
{
    if sample >= 0 {
        assert(sample * low <= sample * high) by (nonlinear_arith)
            requires
                sample >= 0,
                low <= high,
        ;
    } else {
        assert((-sample) * low <= (-sample) * high) by (nonlinear_arith)
            requires
                sample < 0,
                low <= high,
        ;
    }
}

} // verus!
