//! The boundary to the Ogg container crate. The writer object is opaque to
//! verification, so the packets written through it are given a name,
//! `ogg_packets`, that every wrapper's contract speaks of: each write
//! appends one `(data, serial, granule, end-flag)` record.
use vstd::prelude::*;

verus! {

/// A data packet that neither ends its page nor the stream.
pub const PACKET_NORMAL: u8 = 0;

/// A packet that ends its container page.
pub const PACKET_END_PAGE: u8 = 1;

/// A packet that ends the logical stream.
pub const PACKET_END_STREAM: u8 = 2;

/// How a packet write ends its page or stream.
pub(crate) enum PacketEnd {
    Normal,
    EndPage,
    EndStream,
}

/// The end-flag a written packet is recorded with.
pub(crate) open spec fn end_tag(e: PacketEnd) -> u8 {
    match e {
        PacketEnd::Normal => PACKET_NORMAL,
        PacketEnd::EndPage => PACKET_END_PAGE,
        PacketEnd::EndStream => PACKET_END_STREAM,
    }
}

/// An Ogg stream serializer over an in-memory sink. It wraps the outside
/// crate's packet writer, whose sink-type bound Verus cannot express, so
/// the whole struct is opaque and its state is captured by `ogg_packets`.
#[verifier::external_body]
pub struct ContainerStream {
    inner: ogg::writing::PacketWriter<'static, Vec<u8>>,
}

/// The packets written through an in-memory container writer so far, in
/// order: data, stream serial, granule position, end flag.
pub uninterp spec fn ogg_packets(w: ContainerStream) -> Seq<(Seq<u8>, u32, u64, u8)>;

/// The container bytes that serializing a packet sequence produces: the
/// framing is deterministic, a function of the packets alone.
pub uninterp spec fn ogg_frame_bytes(packets: Seq<(Seq<u8>, u32, u64, u8)>) -> Seq<u8>;

/// Relies on ogg::writing::PacketWriter::new: a writer over a fresh
/// in-memory sink has written no packets.
#[verifier::external_body]
pub(crate) fn packet_writer_new() -> (w: ContainerStream)
    ensures
        ogg_packets(w) == Seq::<(Seq<u8>, u32, u64, u8)>::empty(),
{
    ContainerStream { inner: ogg::writing::PacketWriter::new(Vec::new()) }
}

/// Relies on ogg::writing::PacketWriter::write_packet: appends this packet
/// to the stream under the given serial, granule position and end flag. Its
/// only failure source is the sink's io::Write, and writes into a `Vec<u8>`
/// sink never fail, so the call cannot either.
#[verifier::external_body]
pub(crate) fn packet_writer_write(
    w: &mut ContainerStream,
    data: Vec<u8>,
    serial: u32,
    end: PacketEnd,
    granule: u64,
)
    ensures
        ogg_packets(*final(w)) == ogg_packets(*old(w)).push((data@, serial, granule, end_tag(end))),
{
    let inf = match end {
        PacketEnd::Normal => ogg::writing::PacketWriteEndInfo::NormalPacket,
        PacketEnd::EndPage => ogg::writing::PacketWriteEndInfo::EndPage,
        PacketEnd::EndStream => ogg::writing::PacketWriteEndInfo::EndStream,
    };
    let _ = w.inner.write_packet(data, serial, inf, granule);
}

/// Relies on ogg::writing::PacketWriter::into_inner: hands back the
/// in-memory sink, holding the serialized form of the packets written.
#[verifier::external_body]
pub(crate) fn packet_writer_into_bytes(w: ContainerStream) -> (r: Vec<u8>)
    ensures
        r@ == ogg_frame_bytes(ogg_packets(w)),
{
    w.inner.into_inner()
}

} // verus!
