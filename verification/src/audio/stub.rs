//! The Vorbis and FLAC output paths.
//!
//! Both are simple placeholder containers: a magic tag, the sample rate,
//! one configuration byte, then the raw little-endian PCM.  They are
//! complete wire formats of this pipeline and are emitted byte for byte.
use vstd::prelude::*;

use vstd::bytes::{spec_u32_to_le_bytes, u32_to_le_bytes};
use crate::audio::pcm::{append_pcm_le, lemma_pcm_le_bytes_len, spec_pcm_le_bytes};

verus! {

/// The Vorbis-path container: `OggS`, the sample rate in little-endian,
/// the low byte of the quality setting, then the PCM.
pub open spec fn spec_vorbis_stub_bytes(rate: u32, quality: u32, samples: Seq<i16>) -> Seq<u8> {
    seq![0x4fu8, 0x67u8, 0x67u8, 0x53u8] + spec_u32_to_le_bytes(rate) + seq![(quality % 256) as u8]
        + spec_pcm_le_bytes(samples)
}

/// The FLAC-path container: `fLaC`, the sample rate in little-endian, the
/// low byte of the bit depth, then the PCM.
pub open spec fn spec_flac_stub_bytes(rate: u32, bit_depth: u32, samples: Seq<i16>) -> Seq<u8> {
    seq![0x66u8, 0x4cu8, 0x61u8, 0x43u8] + spec_u32_to_le_bytes(rate) + seq![
        (bit_depth % 256) as u8,
    ] + spec_pcm_le_bytes(samples)
}

/// Encodes the Vorbis-path container.
pub fn encode_vorbis_stub(samples: &Vec<i16>, rate: u32, quality: u32) -> (r: Vec<u8>)
    ensures
        r@ == spec_vorbis_stub_bytes(rate, quality, samples@),
        r@.len() == 9 + 2 * samples@.len(),
{
    proof {
        lemma_pcm_le_bytes_len(samples@);
    }
    let mut out: Vec<u8> = Vec::new();
    out.push(0x4f);
    out.push(0x67);
    out.push(0x67);
    out.push(0x53);
    let mut rate_bytes = u32_to_le_bytes(rate);
    out.append(&mut rate_bytes);
    out.push((quality % 256) as u8);
    proof {
        assert(out@ =~= seq![0x4fu8, 0x67u8, 0x67u8, 0x53u8] + spec_u32_to_le_bytes(rate) + seq![
            (quality % 256) as u8,
        ]);
    }
    append_pcm_le(samples, &mut out);
    out
}

/// Encodes the FLAC-path container.
pub fn encode_flac_stub(samples: &Vec<i16>, rate: u32, bit_depth: u32) -> (r: Vec<u8>)
    ensures
        r@ == spec_flac_stub_bytes(rate, bit_depth, samples@),
        r@.len() == 9 + 2 * samples@.len(),
{
    proof {
        lemma_pcm_le_bytes_len(samples@);
    }
    let mut out: Vec<u8> = Vec::new();
    out.push(0x66);
    out.push(0x4c);
    out.push(0x61);
    out.push(0x43);
    let mut rate_bytes = u32_to_le_bytes(rate);
    out.append(&mut rate_bytes);
    out.push((bit_depth % 256) as u8);
    proof {
        assert(out@ =~= seq![0x66u8, 0x4cu8, 0x61u8, 0x43u8] + spec_u32_to_le_bytes(rate) + seq![
            (bit_depth % 256) as u8,
        ]);
    }
    append_pcm_le(samples, &mut out);
    out
}

} // verus!
