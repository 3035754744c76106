//! The Opus output path.
//!
//! The PCM is cut into 20 ms frames (the last one zero-padded to full
//! length), every frame is handed to an outside Opus encoder, and the
//! encoded packets are framed into an Ogg stream: an `OpusHead`
//! identification packet, an `OpusTags` comment packet, then one audio
//! packet per frame, each ending its page, with a monotone granule
//! position counted in 48 kHz samples and offset by the declared pre-skip.
//!
//! The encoder itself runs outside the library; everything around it — the
//! header packets, the frame boundaries, the padding, the granule
//! schedule and the Ogg assembly — is fixed here.
use vstd::prelude::*;

use vstd::bytes::{spec_u16_to_le_bytes, spec_u32_to_le_bytes, u16_to_le_bytes, u32_to_le_bytes};
use vstd::arithmetic::div_mod::{
    lemma_div_is_ordered_by_denominator,
    lemma_div_pos_is_pos,
    lemma_fundamental_div_mod_converse,
};
use vstd::arithmetic::mul::{
    lemma_mul_is_distributive_add_other_way,
    lemma_mul_nonnegative,
    lemma_mul_upper_bound,
};
use crate::audio::spec_opus_rate_ok;
use crate::audio::ogg_stream::{
    ogg_stream_bytes,
    ogg_write_packet_end_page,
    ogg_writer_into_bytes,
    ogg_writer_new,
    ogg_writes,
};
use crate::errors::StemError;

verus! {

/// The largest PCM buffer the Opus path accepts; far beyond any buffer
/// that fits in memory, and small enough that the granule position can
/// never overflow its 64 bits.
pub const OPUS_MAX_SAMPLES: u64 = 0x0100_0000_0000_0000;

/// The pre-skip declared in the stream header and pre-loaded into the
/// granule position, in 48 kHz samples.
pub const OPUS_PRE_SKIP: u16 = 312;

/// The `OpusHead` identification packet: magic, version 1, the channel
/// count, the pre-skip, the input sample rate, zero output gain and
/// channel-mapping family 0.  19 bytes.
pub open spec fn spec_opus_head_bytes(channels: u32, rate: u32) -> Seq<u8> {
    seq![0x4fu8, 0x70u8, 0x75u8, 0x73u8, 0x48u8, 0x65u8, 0x61u8, 0x64u8] + seq![
        1u8,
        (channels % 256) as u8,
    ] + spec_u16_to_le_bytes(OPUS_PRE_SKIP) + spec_u32_to_le_bytes(rate) + spec_u16_to_le_bytes(0)
        + seq![0u8]
}

/// The `OpusTags` comment packet: magic, the vendor string `untracker`
/// with its length, and an empty user-comment list.  25 bytes.
pub open spec fn spec_opus_tags_bytes() -> Seq<u8> {
    seq![0x4fu8, 0x70u8, 0x75u8, 0x73u8, 0x54u8, 0x61u8, 0x67u8, 0x73u8] + spec_u32_to_le_bytes(9)
        + seq![0x75u8, 0x6eu8, 0x74u8, 0x72u8, 0x61u8, 0x63u8, 0x6bu8, 0x65u8, 0x72u8]
        + spec_u32_to_le_bytes(0)
}

/// Builds the `OpusHead` identification packet.
pub fn build_opus_head(channels: u32, rate: u32) -> (r: Vec<u8>)
    ensures
        r@ == spec_opus_head_bytes(channels, rate),
        r@.len() == 19,
{
    let mut out: Vec<u8> = Vec::new();
    out.push(0x4f);
    out.push(0x70);
    out.push(0x75);
    out.push(0x73);
    out.push(0x48);
    out.push(0x65);
    out.push(0x61);
    out.push(0x64);
    out.push(1);
    out.push((channels % 256) as u8);
    let mut pre_skip = u16_to_le_bytes(OPUS_PRE_SKIP);
    out.append(&mut pre_skip);
    let mut rate_bytes = u32_to_le_bytes(rate);
    out.append(&mut rate_bytes);
    let mut gain = u16_to_le_bytes(0);
    out.append(&mut gain);
    out.push(0);
    proof {
        vstd::bytes::lemma_auto_spec_u16_to_from_le_bytes();
        vstd::bytes::lemma_auto_spec_u32_to_from_le_bytes();
        assert(out@ =~= spec_opus_head_bytes(channels, rate));
    }
    out
}

/// Builds the `OpusTags` comment packet.
pub fn build_opus_tags() -> (r: Vec<u8>)
    ensures
        r@ == spec_opus_tags_bytes(),
{
    let mut out: Vec<u8> = Vec::new();
    out.push(0x4f);
    out.push(0x70);
    out.push(0x75);
    out.push(0x73);
    out.push(0x54);
    out.push(0x61);
    out.push(0x67);
    out.push(0x73);
    let mut vendor_len = u32_to_le_bytes(9);
    out.append(&mut vendor_len);
    out.push(0x75);
    out.push(0x6e);
    out.push(0x74);
    out.push(0x72);
    out.push(0x61);
    out.push(0x63);
    out.push(0x6b);
    out.push(0x65);
    out.push(0x72);
    let mut comments = u32_to_le_bytes(0);
    out.append(&mut comments);
    proof {
        assert(out@ =~= spec_opus_tags_bytes());
    }
    out
}

/// The `OpusHead` packet declares exactly the channel count and sample
/// rate it was built from: the channel count at offset 9 and the rate,
/// little-endian, at offsets 12 to 15.  Together with
/// `assemble_opus_stream`, which places this packet at offset 28 of the
/// stream, the emitted container declares the corrected rate — 48000 for
/// an Opus request at an unsupported rate — and never the requested one.
pub proof fn lemma_opus_head_declares_rate(channels: u32, rate: u32)
    ensures
        spec_opus_head_bytes(channels, rate).len() == 19,
        spec_opus_head_bytes(channels, rate)[9] == (channels % 256) as u8,
        spec_opus_head_bytes(channels, rate).subrange(12, 16) == spec_u32_to_le_bytes(rate),
{
    vstd::bytes::lemma_auto_spec_u16_to_from_le_bytes();
    vstd::bytes::lemma_auto_spec_u32_to_from_le_bytes();
    assert(spec_opus_head_bytes(channels, rate).subrange(12, 16) =~= spec_u32_to_le_bytes(rate));
}

/// Samples per 20 ms frame: the per-channel frame length times the
/// channel count.
pub open spec fn spec_opus_frame_samples(rate: u32, channels: u32) -> nat {
    (((rate as int) / 50) * (channels as int)) as nat
}

/// The granule-position weight of one output frame: granule positions are
/// counted in 48 kHz samples whatever the encoding rate.
pub open spec fn spec_opus_granule_mult(rate: u32) -> nat
    recommends
        rate > 0,
{
    (48000int / (rate as int)) as nat
}

/// How many frames a buffer of `n` samples cuts into, the last one
/// padded: none for an empty buffer, else one per started frame.
pub open spec fn spec_opus_num_frames(n: nat, spf: nat) -> nat
    recommends
        spf > 0,
{
    if n == 0 {
        0
    } else {
        ((((n - 1) as int) / (spf as int)) + 1) as nat
    }
}

/// The number of samples of frame `k` that come from the buffer (the rest
/// is padding): a full frame except possibly the last.
pub open spec fn spec_opus_chunk_len(n: nat, spf: nat, k: nat) -> nat {
    if (k + 1) * spf <= n {
        spf
    } else {
        (n - k * spf) as nat
    }
}

/// Frame `k` of the buffer: the buffer's samples for that frame, zero-
/// padded to the full frame length.
pub open spec fn spec_opus_frame(samples: Seq<i16>, spf: nat, k: nat) -> Seq<i16>
    recommends
        spf > 0,
        k < spec_opus_num_frames(samples.len(), spf),
{
    let len = spec_opus_chunk_len(samples.len(), spf, k);
    samples.subrange((k * spf) as int, (k * spf + len) as int) + Seq::new(
        (spf - len) as nat,
        |i: int| 0i16,
    )
}

/// The granule position written after frame `k`: the pre-skip plus the
/// cumulative unpadded frame count so far, scaled to 48 kHz.
pub open spec fn spec_opus_granule(n: nat, spf: nat, channels: nat, mult: nat, k: nat) -> nat
    decreases k,
{
    let inc = (spec_opus_chunk_len(n, spf, k) as int / channels as int) * mult;
    if k == 0 {
        (OPUS_PRE_SKIP + inc) as nat
    } else {
        (spec_opus_granule(n, spf, channels, mult, (k - 1) as nat) + inc) as nat
    }
}

/// One granule increment never exceeds six 48 kHz samples per source
/// sample.
proof fn lemma_granule_inc_bound(u: int, channels: int, mult: int)
    requires
        u >= 0,
        1 <= channels,
        0 <= mult <= 6,
    ensures
        0 <= (u / channels) * mult <= 6 * u,
{
    lemma_div_is_ordered_by_denominator(u, 1, channels);
    assert(u / 1 == u) by (nonlinear_arith);
    lemma_div_pos_is_pos(u, channels);
    lemma_mul_nonnegative(u / channels, mult);
    lemma_mul_upper_bound(u / channels, u, mult, 6);
    assert(u * 6 == 6 * u) by (nonlinear_arith);
}

/// Cuts a PCM buffer into zero-padded 20 ms frames and schedules the Ogg
/// granule position written after each.
pub fn opus_frame_plan(samples: &Vec<i16>, channels: u32, rate: u32) -> (r: (Vec<Vec<i16>>, Vec<
    u64,
>))
    requires
        channels == 1 || channels == 2,
        spec_opus_rate_ok(rate),
        samples@.len() <= OPUS_MAX_SAMPLES,
    ensures
        ({
            let n = samples@.len();
            let spf = spec_opus_frame_samples(rate, channels);
            let mult = spec_opus_granule_mult(rate);
            &&& r.0@.len() == spec_opus_num_frames(n, spf)
            &&& r.1@.len() == r.0@.len()
            &&& forall|k: int|
                0 <= k < r.0@.len() ==> (#[trigger] r.0@[k])@ == spec_opus_frame(
                    samples@,
                    spf,
                    k as nat,
                )
            &&& forall|k: int| 0 <= k < r.0@.len() ==> (#[trigger] r.0@[k])@.len() == spf
            &&& forall|k: int|
                0 <= k < r.1@.len() ==> #[trigger] r.1@[k] == spec_opus_granule(
                    n,
                    spf,
                    channels as nat,
                    mult,
                    k as nat,
                )
        }),
{
    let ghost n = samples@.len();
    let frame_len: usize = (rate / 50) as usize;
    let spf: usize = if channels == 2 {
        frame_len * 2
    } else {
        frame_len
    };
    let mult: u64 = (48000 / rate) as u64;
    proof {
        assert(160 <= frame_len <= 960);
        assert(spf == spec_opus_frame_samples(rate, channels));
        assert(mult == spec_opus_granule_mult(rate));
        assert(160 <= spf <= 1920);
        assert(1 <= mult <= 6);
    }
    let total = samples.len();
    let mut frames: Vec<Vec<i16>> = Vec::new();
    let mut granules: Vec<u64> = Vec::new();
    let mut start: usize = 0;
    let mut granule: u64 = OPUS_PRE_SKIP as u64;
    proof {
        assert(0int * (spf as int) == 0) by (nonlinear_arith);
    }
    while start < total
        invariant
            channels == 1 || channels == 2,
            spec_opus_rate_ok(rate),
            n == samples@.len(),
            n <= OPUS_MAX_SAMPLES,
            total == n,
            spf == spec_opus_frame_samples(rate, channels),
            160 <= spf <= 1920,
            mult == spec_opus_granule_mult(rate),
            1 <= mult <= 6,
            frames@.len() == granules@.len(),
            start == if frames@.len() * spf <= n {
                frames@.len() * spf
            } else {
                n as int
            },
            frames@.len() == 0 || (frames@.len() - 1) * spf < n,
            granule == if frames@.len() == 0 {
                OPUS_PRE_SKIP as int
            } else {
                spec_opus_granule(
                    n,
                    spf as nat,
                    channels as nat,
                    mult as nat,
                    (frames@.len() - 1) as nat,
                ) as int
            },
            granule <= OPUS_PRE_SKIP + 6 * start,
            forall|k: int|
                0 <= k < frames@.len() ==> (#[trigger] frames@[k])@ == spec_opus_frame(
                    samples@,
                    spf as nat,
                    k as nat,
                ),
            forall|k: int| 0 <= k < frames@.len() ==> (#[trigger] frames@[k])@.len() == spf,
            forall|k: int|
                0 <= k < granules@.len() ==> #[trigger] granules@[k] == spec_opus_granule(
                    n,
                    spf as nat,
                    channels as nat,
                    mult as nat,
                    k as nat,
                ),
        decreases total - start,
    {
        let ghost k = frames@.len();
        proof {
            assert(start == k * spf);
            lemma_mul_is_distributive_add_other_way(spf as int, k as int, 1);
            assert(1 * (spf as int) == spf as int) by (nonlinear_arith);
            assert((k + 1) * (spf as int) == k * (spf as int) + spf);
        }
        let end: usize = if total - start >= spf {
            start + spf
        } else {
            total
        };
        let unpadded: usize = end - start;
        proof {
            assert(unpadded == spec_opus_chunk_len(n, spf as nat, k as nat));
        }
        let mut frame: Vec<i16> = Vec::new();
        let mut i: usize = start;
        while i < end
            invariant
                start <= i <= end,
                end <= samples@.len(),
                frame@ == samples@.subrange(start as int, i as int),
            decreases end - i,
        {
            frame.push(samples[i]);
            proof {
                assert(samples@.subrange(start as int, i as int) + seq![samples@[i as int]]
                    =~= samples@.subrange(start as int, i + 1));
            }
            i = i + 1;
        }
        while frame.len() < spf
            invariant
                unpadded <= frame@.len() <= spf,
                frame@ == samples@.subrange(start as int, end as int) + Seq::new(
                    (frame@.len() - unpadded) as nat,
                    |j: int| 0i16,
                ),
            decreases spf - frame@.len(),
        {
            frame.push(0);
            proof {
                assert(samples@.subrange(start as int, end as int) + Seq::new(
                    (frame@.len() - unpadded) as nat,
                    |j: int| 0i16,
                ) =~= frame@);
            }
        }
        proof {
            assert(frame@ =~= spec_opus_frame(samples@, spf as nat, k as nat));
        }
        let q: usize = unpadded / (channels as usize);
        proof {
            lemma_granule_inc_bound(unpadded as int, channels as int, mult as int);
        }
        let inc: u64 = (q as u64) * mult;
        proof {
            assert(inc <= 6 * unpadded);
        }
        granule = granule + inc;
        proof {
            assert(granule == spec_opus_granule(
                n,
                spf as nat,
                channels as nat,
                mult as nat,
                k as nat,
            ));
        }
        granules.push(granule);
        frames.push(frame);
        start = end;
    }
    proof {
        let k = frames@.len();
        let spfi = spf as int;
        if n == 0 {
            assert(k == 0);
        } else {
            assert(k >= 1);
            assert((k - 1) * spfi < n <= k * spfi);
            lemma_mul_is_distributive_add_other_way(spfi, k - 1, 1);
            assert(1 * spfi == spfi) by (nonlinear_arith);
            assert(k * spfi == (k - 1) * spfi + spfi);
            lemma_fundamental_div_mod_converse(
                n as int - 1,
                spfi,
                k - 1,
                (n - 1) - (k - 1) * spfi,
            );
            assert((n as int - 1) / spfi == k - 1);
        }
        assert(frames@.len() == spec_opus_num_frames(n, spf as nat));
    }
    (frames, granules)
}

/// The serial number of the single logical stream in an Opus artifact.
pub const OPUS_STREAM_SERIAL: u32 = 1;

/// The packet sequence of a complete Opus-in-Ogg stream: the `OpusHead`
/// and `OpusTags` packets at granule position zero, then one audio packet
/// per frame with its scheduled granule position.
pub open spec fn spec_opus_write_seq(
    channels: u32,
    rate: u32,
    packets: Seq<Seq<u8>>,
    granules: Seq<u64>,
) -> Seq<(Seq<u8>, u32, u64)> {
    seq![
        (spec_opus_head_bytes(channels, rate), OPUS_STREAM_SERIAL, 0u64),
        (spec_opus_tags_bytes(), OPUS_STREAM_SERIAL, 0u64),
    ] + Seq::new(packets.len(), |k: int| (packets[k], OPUS_STREAM_SERIAL, granules[k]))
}

/// Pages the encoded Opus packets into the final Ogg stream, after the
/// `OpusHead` and `OpusTags` header packets.  Always succeeds — the pages
/// go to an in-memory buffer — and the returned bytes are the paging of
/// exactly that packet sequence; they begin with the `OggS` capture
/// pattern, and the 19-byte `OpusHead` packet — which declares the
/// channel count and the sample rate handed in here — lies at offset 28
/// of the stream.
pub fn assemble_opus_stream(
    channels: u32,
    rate: u32,
    packets: &Vec<Vec<u8>>,
    granules: &Vec<u64>,
) -> (r: Result<Vec<u8>, StemError>)
    requires
        granules@.len() == packets@.len(),
    ensures
        r is Ok,
        r->Ok_0@ == ogg_stream_bytes(
            spec_opus_write_seq(channels, rate, packets.deep_view(), granules@),
        ),
        r->Ok_0@.len() >= 47 && r->Ok_0@[0] == 0x4fu8 && r->Ok_0@[1] == 0x67u8 && r->Ok_0@[2]
            == 0x67u8 && r->Ok_0@[3] == 0x53u8,
        r->Ok_0@.subrange(28, 47) == spec_opus_head_bytes(channels, rate),
{
    let mut w = ogg_writer_new();
    let head = build_opus_head(channels, rate);
    let _ = ogg_write_packet_end_page(&mut w, &head, OPUS_STREAM_SERIAL, 0);
    let tags = build_opus_tags();
    let _ = ogg_write_packet_end_page(&mut w, &tags, OPUS_STREAM_SERIAL, 0);
    let ghost headers = seq![
        (spec_opus_head_bytes(channels, rate), OPUS_STREAM_SERIAL, 0u64),
        (spec_opus_tags_bytes(), OPUS_STREAM_SERIAL, 0u64),
    ];
    proof {
        assert(ogg_writes(w) =~= headers);
    }
    let mut k: usize = 0;
    while k < packets.len()
        invariant
            granules@.len() == packets@.len(),
            k <= packets@.len(),
            ogg_writes(w) == headers + Seq::new(
                k as nat,
                |j: int| (packets.deep_view()[j], OPUS_STREAM_SERIAL, granules@[j]),
            ),
        decreases packets@.len() - k,
    {
        let _ = ogg_write_packet_end_page(&mut w, &packets[k], OPUS_STREAM_SERIAL, granules[k]);
        proof {
            assert(packets@[k as int].deep_view() =~= packets@[k as int]@);
            assert(packets.deep_view()[k as int] == packets@[k as int].deep_view());
            assert(headers + Seq::new(
                k as nat,
                |j: int| (packets.deep_view()[j], OPUS_STREAM_SERIAL, granules@[j]),
            ).push((packets@[k as int]@, OPUS_STREAM_SERIAL, granules@[k as int])) =~= headers
                + Seq::new(
                (k + 1) as nat,
                |j: int| (packets.deep_view()[j], OPUS_STREAM_SERIAL, granules@[j]),
            ));
        }
        k = k + 1;
    }
    proof {
        assert(packets.deep_view().len() == packets@.len());
        assert(ogg_writes(w) =~= spec_opus_write_seq(
            channels,
            rate,
            packets.deep_view(),
            granules@,
        ));
    }
    let bytes = ogg_writer_into_bytes(w);
    proof {
        assert(ogg_writes(w)[0].0 == spec_opus_head_bytes(channels, rate));
        assert(ogg_writes(w)[0].0.len() == 19);
        assert(bytes@.subrange(28, 47) == spec_opus_head_bytes(channels, rate));
    }
    Ok(bytes)
}

} // verus!
