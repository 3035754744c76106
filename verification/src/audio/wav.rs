//! The WAV output path.
//!
//! The WAV container itself is streamed by an outside writer at the
//! program's I/O edge; this module fixes everything that writer receives:
//! the header parameters, taken verbatim from the export options, and the
//! sample words.  The source PCM is always 16-bit; a 24-bit export shifts
//! each sample into the high-order end of the 24-bit slot (sample × 256).
use vstd::prelude::*;

use crate::audio::{spec_common_config_error, ExportOptions};

verus! {

/// The header parameters of a WAV artifact.  They declare exactly the
/// requested channel count, sample rate and bit depth.
#[derive(Clone, Copy, Debug, PartialEq, Eq, Structural)]
pub struct WavParams {
    pub channels: u16,
    pub sample_rate: u32,
    pub bits_per_sample: u16,
}

/// The sample word written for source sample `s` at the given bit depth.
pub open spec fn spec_wav_sample_word(s: i16, bit_depth: u32) -> i32 {
    if bit_depth == 24 {
        ((s as int) * 256) as i32
    } else {
        s as i32
    }
}

/// The WAV header parameters of a run: the requested options, verbatim.
pub fn wav_params(options: &ExportOptions) -> (r: WavParams)
    requires
        spec_common_config_error(*options) is None,
    ensures
        r.channels == options.channels,
        r.sample_rate == options.sample_rate,
        r.bits_per_sample == options.bit_depth,
{
    WavParams {
        channels: options.channels as u16,
        sample_rate: options.sample_rate,
        bits_per_sample: options.bit_depth as u16,
    }
}

/// The sample words a WAV writer must receive, in order: the source PCM,
/// widened, and shifted into the 24-bit slot when the bit depth is 24.
pub fn wav_sample_words(samples: &Vec<i16>, bit_depth: u32) -> (r: Vec<i32>)
    ensures
        r@.len() == samples@.len(),
        forall|i: int|
            0 <= i < samples@.len() ==> r@[i] == spec_wav_sample_word(samples@[i], bit_depth),
{
    let mut out: Vec<i32> = Vec::new();
    let mut i: usize = 0;
    while i < samples.len()
        invariant
            i <= samples@.len(),
            out@.len() == i,
            forall|j: int|
                0 <= j < i ==> out@[j] == spec_wav_sample_word(samples@[j], bit_depth),
        decreases samples@.len() - i,
    {
        let s = samples[i];
        if bit_depth == 24 {
            out.push((s as i32) * 256);
        } else {
            out.push(s as i32);
        }
        i = i + 1;
    }
    out
}

} // verus!
