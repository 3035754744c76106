//! Little-endian serialization of 16-bit PCM.
use vstd::prelude::*;

use vstd::bytes::{spec_u16_to_le_bytes, u16_to_le_bytes};

verus! {

/// The two's-complement 16-bit pattern of a sample.
pub open spec fn spec_i16_bits(s: i16) -> u16 {
    if s >= 0 {
        s as u16
    } else {
        (s + 0x10000) as u16
    }
}

/// A sample's two little-endian bytes.
pub open spec fn spec_i16_le(s: i16) -> Seq<u8> {
    spec_u16_to_le_bytes(spec_i16_bits(s))
}

/// A PCM buffer serialized sample by sample, two little-endian bytes each.
pub open spec fn spec_pcm_le_bytes(samples: Seq<i16>) -> Seq<u8>
    decreases samples.len(),
{
    if samples.len() == 0 {
        Seq::empty()
    } else {
        spec_pcm_le_bytes(samples.drop_last()) + spec_i16_le(samples.last())
    }
}

/// Serializing one more sample appends its two bytes.
pub proof fn lemma_pcm_le_bytes_take_step(samples: Seq<i16>, i: int)
    requires
        0 <= i < samples.len(),
    ensures
        spec_pcm_le_bytes(samples.take(i + 1)) == spec_pcm_le_bytes(samples.take(i)) + spec_i16_le(
            samples[i],
        ),
{
    assert(samples.take(i + 1).drop_last() =~= samples.take(i));
    assert(samples.take(i + 1).last() == samples[i]);
}

/// Each serialized sample adds two bytes.
pub proof fn lemma_pcm_le_bytes_len(samples: Seq<i16>)
    ensures
        spec_pcm_le_bytes(samples).len() == 2 * samples.len(),
    decreases samples.len(),
{
    vstd::bytes::lemma_auto_spec_u16_to_from_le_bytes();
    if samples.len() > 0 {
        lemma_pcm_le_bytes_len(samples.drop_last());
    }
}

/// The two's-complement 16-bit pattern of a sample.
pub fn i16_bits(s: i16) -> (r: u16)
    ensures
        r == spec_i16_bits(s),
{
    if s >= 0 {
        s as u16
    } else {
        ((s as i32) + 0x10000) as u16
    }
}

/// Appends a PCM buffer to `out`, each sample as two little-endian bytes.
pub fn append_pcm_le(samples: &Vec<i16>, out: &mut Vec<u8>)
    ensures
        final(out)@ == old(out)@ + spec_pcm_le_bytes(samples@),
{
    let ghost prefix = old(out)@;
    let mut i: usize = 0;
    while i < samples.len()
        invariant
            i <= samples@.len(),
            out@ == prefix + spec_pcm_le_bytes(samples@.take(i as int)),
        decreases samples@.len() - i,
    {
        let mut b = u16_to_le_bytes(i16_bits(samples[i]));
        out.append(&mut b);
        proof {
            lemma_pcm_le_bytes_take_step(samples@, i as int);
            assert(prefix + spec_pcm_le_bytes(samples@.take(i as int)) + spec_i16_le(
                samples@[i as int],
            ) =~= prefix + spec_pcm_le_bytes(samples@.take(i + 1)));
        }
        i = i + 1;
    }
    proof {
        assert(samples@.take(samples@.len() as int) =~= samples@);
    }
}

} // verus!
