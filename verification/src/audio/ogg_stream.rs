//! The Ogg page stream that carries the Opus packets.
//!
//! Paging, lacing and checksums are the `ogg` crate's work; this module
//! wraps its packet writer behind contracts that record exactly which
//! packets were committed, in which order and with which granule
//! positions, so that the assembled stream is pinned up to the outside
//! crate's deterministic paging of those packets.
use vstd::prelude::*;

use crate::errors::StemError;

verus! {

/// An Ogg packet writer paging into an in-memory buffer.  Opaque: its
/// observable state is `ogg_writes`.
#[verifier::external_body]
pub struct OggStreamWriter {
    inner: ogg::PacketWriter<'static, Vec<u8>>,
}

/// The packets committed to a writer so far, oldest first: each one's
/// bytes, stream serial and granule position.  Every packet written
/// through this module ends its page.
pub uninterp spec fn ogg_writes(w: OggStreamWriter) -> Seq<(Seq<u8>, u32, u64)>;

/// The bytes of the Ogg stream that paging a packet sequence produces.
pub uninterp spec fn ogg_stream_bytes(writes: Seq<(Seq<u8>, u32, u64)>) -> Seq<u8>;

/// Relies on ogg::PacketWriter::new: a fresh writer over an empty buffer
/// has committed no packets.
#[verifier::external_body]
pub fn ogg_writer_new() -> (w: OggStreamWriter)
    ensures
        ogg_writes(w) == Seq::<(Seq<u8>, u32, u64)>::empty(),
{
    OggStreamWriter { inner: ogg::PacketWriter::new(Vec::new()) }
}

/// Relies on ogg::PacketWriter::write_packet with
/// PacketWriteEndInfo::EndPage: the packet is appended to the stream with
/// the given serial and granule position and its page is flushed.  It
/// fails only when the underlying writer does, and this writer's sink is
/// an in-memory `Vec<u8>`, whose `io::Write` never returns an error — so
/// the write always succeeds.
#[verifier::external_body]
pub fn ogg_write_packet_end_page(
    w: &mut OggStreamWriter,
    data: &Vec<u8>,
    serial: u32,
    granule: u64,
) -> (r: Result<(), StemError>)
    ensures
        r is Ok,
        ogg_writes(*final(w)) == ogg_writes(*old(w)).push((data@, serial, granule)),
{
    w.inner.write_packet(data.clone(), serial, ogg::PacketWriteEndInfo::EndPage, granule).map_err(
        |_| StemError::OutputWriteFailed,
    )
}

/// Relies on ogg::PacketWriter::into_inner: returns the underlying buffer,
/// holding every page flushed so far.  Each Ogg page begins with the
/// capture pattern `OggS`, and a first packet of fewer than 255 bytes that
/// ended its page lies at offset 28, right after the 27-byte page header
/// and its single lacing value.
#[verifier::external_body]
pub fn ogg_writer_into_bytes(w: OggStreamWriter) -> (b: Vec<u8>)
    ensures
        b@ == ogg_stream_bytes(ogg_writes(w)),
        ogg_writes(w).len() > 0 ==> b@.len() >= 28 && b@[0] == 0x4fu8 && b@[1] == 0x67u8 && b@[2]
            == 0x67u8 && b@[3] == 0x53u8,
        ogg_writes(w).len() > 0 && ogg_writes(w)[0].0.len() < 255 ==> b@.len() >= 28 + ogg_writes(
            w,
        )[0].0.len() && b@.subrange(28, 28 + ogg_writes(w)[0].0.len() as int) == ogg_writes(w)[0].0,
{
    w.inner.into_inner()
}

} // verus!
