//! The codec/container writer: buffers converted samples into fixed 20 ms
//! encode frames, hands each frame out for compression, and serializes the
//! compressed frames into an Ogg stream with correctly ordered header, data
//! and end-of-stream packets. Samples pass through as opaque 32-bit words;
//! the compressor itself runs outside and its output is written back here.
use vstd::prelude::*;

verus! {

use crate::errors::RecordingError;
use crate::oggio::PACKET_END_PAGE;
use crate::oggio::PACKET_END_STREAM;
use crate::oggio::PACKET_NORMAL;
use crate::oggio::ContainerStream;
use crate::oggio::PacketEnd;
use crate::oggio::ogg_frame_bytes;
use crate::oggio::ogg_packets;
use crate::oggio::packet_writer_into_bytes;
use crate::oggio::packet_writer_new;
use crate::oggio::packet_writer_write;
use crate::resample::InterleavedResampler;
use crate::resample::interleave;
use crate::resample::uniform_blocks;
use crate::session::RecordingArtifact;

/// The fixed encode sample rate.
pub const ENCODE_SAMPLE_RATE: u32 = 48000;

/// Samples per channel in one 20 ms encode frame at the encode rate.
pub const FRAME_SAMPLES: usize = 960;

/// Relies on rand::random: an arbitrary value of the requested type; being
/// random, nothing is promised of it.
pub assume_specification<T>[ rand::random::<T> ]() -> (r: T)
    where
        rand::distributions::Standard: rand::distributions::Distribution<T>,
;

/// A 16-bit value in little-endian byte order.
pub open spec fn le_bytes_16(x: u16) -> Seq<u8> {
    seq![(x % 256) as u8, ((x / 256) % 256) as u8]
}

/// A 32-bit value in little-endian byte order.
pub open spec fn le_bytes_32(x: u32) -> Seq<u8> {
    seq![
        (x % 256) as u8,
        ((x / 256) % 256) as u8,
        ((x / 65536) % 256) as u8,
        ((x / 16777216) % 256) as u8,
    ]
}

/// The 19-byte identification header packet: magic, version 1, channel
/// count, zero pre-skip, the encode rate in little-endian, zero output
/// gain, channel-mapping family zero.
pub open spec fn spec_opus_head(channels: u8, rate: u32) -> Seq<u8> {
    seq![79u8, 112u8, 117u8, 115u8, 72u8, 101u8, 97u8, 100u8, 1u8, channels] + le_bytes_16(0)
        + le_bytes_32(rate) + le_bytes_16(0) + seq![0u8]
}

/// The vendor string written into the comment header: `AFFiNE Native`.
pub open spec fn spec_vendor() -> Seq<u8> {
    seq![65u8, 70u8, 70u8, 105u8, 78u8, 69u8, 32u8, 78u8, 97u8, 116u8, 105u8, 118u8, 101u8]
}

/// The comment header packet: magic, vendor-string length and bytes, and a
/// zero-length user comment list.
pub open spec fn spec_opus_tags() -> Seq<u8> {
    seq![79u8, 112u8, 117u8, 115u8, 84u8, 97u8, 103u8, 115u8] + le_bytes_32(13) + spec_vendor()
        + le_bytes_32(0)
}

/// Builds the identification header packet.
fn build_opus_head(channels: u8, rate: u32) -> (r: Vec<u8>)
    ensures
        r@ == spec_opus_head(channels, rate),
{
    let mut v: Vec<u8> = Vec::new();
    v.push(79);
    v.push(112);
    v.push(117);
    v.push(115);
    v.push(72);
    v.push(101);
    v.push(97);
    v.push(100);
    v.push(1);
    v.push(channels);
    v.push(0);
    v.push(0);
    v.push((rate % 256) as u8);
    v.push(((rate / 256) % 256) as u8);
    v.push(((rate / 65536) % 256) as u8);
    v.push(((rate / 16777216) % 256) as u8);
    v.push(0);
    v.push(0);
    v.push(0);
    proof {
        assert(v@ =~= spec_opus_head(channels, rate));
    }
    v
}

/// Builds the comment header packet.
fn build_opus_tags() -> (r: Vec<u8>)
    ensures
        r@ == spec_opus_tags(),
{
    let mut v: Vec<u8> = Vec::new();
    v.push(79);
    v.push(112);
    v.push(117);
    v.push(115);
    v.push(84);
    v.push(97);
    v.push(103);
    v.push(115);
    v.push(13);
    v.push(0);
    v.push(0);
    v.push(0);
    v.push(65);
    v.push(70);
    v.push(70);
    v.push(105);
    v.push(78);
    v.push(69);
    v.push(32);
    v.push(78);
    v.push(97);
    v.push(116);
    v.push(105);
    v.push(118);
    v.push(101);
    v.push(0);
    v.push(0);
    v.push(0);
    v.push(0);
    proof {
        assert(v@ =~= spec_opus_tags());
    }
    v
}

/// Turns a stream of converted interleaved sample words into the packet
/// sequence of a valid container: two header packets first, then one data
/// packet per fixed-size frame with strictly increasing granule positions.
pub struct OggOpusWriter {
    writer: ContainerStream,
    stream_serial: u32,
    channels: u32,
    pending: Vec<u32>,
    granule_position: u64,
    samples_written: u64,
    resampler: Option<InterleavedResampler>,
    queued_total: Ghost<nat>,
    taken_total: Ghost<nat>,
}

impl OggOpusWriter {
    /// The stream serial number all packets carry.
    pub closed spec fn spec_serial(self) -> u32 {
        self.stream_serial
    }

    /// The channel count: one or two.
    pub closed spec fn spec_channels(self) -> int {
        self.channels as int
    }

    /// Converted samples waiting for a full frame.
    pub closed spec fn spec_pending(self) -> Seq<u32> {
        self.pending@
    }

    /// The granule position: cumulative sample count of the data packets.
    pub closed spec fn spec_granule(self) -> u64 {
        self.granule_position
    }

    /// Samples written across all data packets, at the encode rate.
    pub closed spec fn spec_samples_written(self) -> u64 {
        self.samples_written
    }

    /// The converter front end, present exactly when rate conversion is on.
    pub closed spec fn spec_resampler(self) -> Option<InterleavedResampler> {
        self.resampler
    }

    /// All words ever appended to the pending buffer.
    pub closed spec fn spec_queued_total(self) -> nat {
        self.queued_total@
    }

    /// All words handed out as (padded) encode frames.
    pub closed spec fn spec_taken_total(self) -> nat {
        self.taken_total@
    }

    /// The packets written so far.
    pub closed spec fn packets(self) -> Seq<(Seq<u8>, u32, u64, u8)> {
        ogg_packets(self.writer)
    }

    /// Words per full interleaved frame.
    pub open spec fn spec_frame_len(self) -> int {
        FRAME_SAMPLES * self.spec_channels()
    }

    /// The writer's invariant: a mono or stereo stream whose packet
    /// sequence starts with the two header packets and continues with data
    /// packets under the same serial, granule positions strictly
    /// increasing up to the current position; the pending buffer holds
    /// whole frames' worth of words; every word queued was either handed
    /// out in a frame or is still pending.
    pub open spec fn wf(self) -> bool {
        let p = self.packets();
        &&& 1 <= self.spec_channels() <= 2
        &&& self.spec_pending().len() as int % self.spec_channels() == 0
        &&& self.spec_granule() == self.spec_samples_written()
        &&& self.spec_queued_total() == self.spec_taken_total() + self.spec_pending().len()
        &&& (match self.spec_resampler() {
            Some(rs) => rs.wf() && rs.spec_channels() == self.spec_channels(),
            None => true,
        })
        &&& p.len() >= 2
        &&& p[0] == (spec_opus_head(self.spec_channels() as u8, ENCODE_SAMPLE_RATE),
        self.spec_serial(), 0u64, PACKET_END_PAGE)
        &&& p[1] == (spec_opus_tags(), self.spec_serial(), 0u64, PACKET_END_PAGE)
        &&& (forall|i: int|
            2 <= i < p.len() ==> (#[trigger] p[i]).1 == self.spec_serial() && p[i].3
                == PACKET_NORMAL)
        &&& (forall|i: int| 2 <= i < p.len() ==> (#[trigger] p[i]).2 <= self.spec_granule())
        &&& (forall|i: int, j: int| 2 <= i < j < p.len() ==> p[i].2 < p[j].2)
        &&& (p.len() > 2 ==> p[p.len() - 1].2 == self.spec_granule())
        &&& (self.spec_samples_written() > 0 <==> p.len() > 2)
    }

    /// A writer for one session: channel layout derived from the request
    /// (stereo above one channel, else mono), both header packets written
    /// on the first page, and a converter front end exactly when the
    /// source rate differs from the encode rate.
    pub fn new(source_sample_rate: u32, channels: u32) -> (r: OggOpusWriter)
        ensures
            r.wf(),
            r.spec_channels() == (if channels > 1 {
                2int
            } else {
                1int
            }),
            r.spec_pending().len() == 0,
            r.spec_granule() == 0,
            r.spec_samples_written() == 0,
            r.spec_taken_total() == 0,
            r.spec_queued_total() == 0,
            r.packets().len() == 2,
            r.spec_resampler() is Some <==> source_sample_rate != ENCODE_SAMPLE_RATE,
            match r.spec_resampler() {
                Some(rs) => !rs.is_warmed() && rs.queued().len() == 0,
                None => true,
            },
    {
        let ch: u32 = if channels > 1 {
            2
        } else {
            1
        };
        let serial: u32 = rand::random();
        let mut writer = packet_writer_new();
        let head = build_opus_head(ch as u8, ENCODE_SAMPLE_RATE);
        packet_writer_write(&mut writer, head, serial, PacketEnd::EndPage, 0);
        let tags = build_opus_tags();
        packet_writer_write(&mut writer, tags, serial, PacketEnd::EndPage, 0);
        let resampler = if source_sample_rate != ENCODE_SAMPLE_RATE {
            Some(InterleavedResampler::new(ch as usize))
        } else {
            None
        };
        let r = OggOpusWriter {
            writer,
            stream_serial: serial,
            channels: ch,
            pending: Vec::new(),
            granule_position: 0,
            samples_written: 0,
            resampler,
            queued_total: Ghost(0nat),
            taken_total: Ghost(0nat),
        };
        proof {
            vstd::arithmetic::div_mod::lemma_small_mod(0nat, r.channels as nat);
        }
        r
    }

    /// The channel count: one or two.
    pub fn channels(&self) -> (r: u32)
        ensures
            r == self.spec_channels(),
    {
        self.channels
    }

    /// The fixed encode sample rate.
    pub fn sample_rate(&self) -> (r: u32)
        ensures
            r == ENCODE_SAMPLE_RATE,
    {
        ENCODE_SAMPLE_RATE
    }

    /// Samples written across all data packets so far.
    pub fn samples_written(&self) -> (r: u64)
        ensures
            r == self.spec_samples_written(),
    {
        self.samples_written
    }

    /// How many converted words wait for a full frame.
    pub fn pending_len(&self) -> (r: usize)
        ensures
            r == self.spec_pending().len(),
    {
        self.pending.len()
    }

    /// Words per full interleaved frame: 20 ms of samples on every channel.
    pub fn frame_len(&self) -> (r: usize)
        requires
            self.wf(),
        ensures
            r == self.spec_frame_len(),
    {
        FRAME_SAMPLES * (self.channels as usize)
    }

    /// Accepts one interleaved chunk from the capture source. Without a
    /// converter the samples join the pending buffer unchanged; with one
    /// they queue for conversion and the pending buffer is untouched.
    pub fn queue_samples(&mut self, samples: &Vec<u32>)
        requires
            old(self).wf(),
            samples@.len() as int % old(self).spec_channels() == 0,
            old(self).spec_pending().len() + samples@.len() <= usize::MAX,
            match old(self).spec_resampler() {
                Some(rs) => rs.queued().len() + samples@.len() <= usize::MAX,
                None => true,
            },
        ensures
            final(self).wf(),
            final(self).spec_channels() == old(self).spec_channels(),
            final(self).spec_serial() == old(self).spec_serial(),
            final(self).spec_granule() == old(self).spec_granule(),
            final(self).spec_samples_written() == old(self).spec_samples_written(),
            final(self).packets() == old(self).packets(),
            final(self).spec_taken_total() == old(self).spec_taken_total(),
            match old(self).spec_resampler() {
                None => {
                    &&& final(self).spec_resampler() is None
                    &&& final(self).spec_pending() == old(self).spec_pending() + samples@
                    &&& final(self).spec_queued_total() == old(self).spec_queued_total()
                        + samples@.len()
                },
                Some(rs) => {
                    &&& final(self).spec_resampler() matches Some(rs2) && rs2.queued()
                        == rs.queued() + samples@ && rs2.is_warmed() == rs.is_warmed()
                        && rs2.spec_channels() == rs.spec_channels()
                    &&& final(self).spec_pending() == old(self).spec_pending()
                    &&& final(self).spec_queued_total() == old(self).spec_queued_total()
                },
            },
    {
        match &mut self.resampler {
            Some(rs) => {
                rs.push_interleaved(samples);
            },
            None => {
                self.pending.extend_from_slice(samples.as_slice());
                proof {
                    self.queued_total@ = self.queued_total@ + samples@.len();
                    vstd::arithmetic::div_mod::lemma_add_mod_noop(
                        old(self).spec_pending().len() as int,
                        samples@.len() as int,
                        self.spec_channels(),
                    );
                    vstd::arithmetic::div_mod::lemma_small_mod(0nat, self.channels as nat);
                }
            },
        }
    }

    /// Takes one converter input chunk, de-interleaved per channel, when
    /// enough samples are queued for conversion; nothing without a
    /// converter or below one chunk per channel.
    pub fn next_chunk(&mut self) -> (r: Option<Vec<Vec<u32>>>)
        requires
            old(self).wf(),
        ensures
            final(self).wf(),
            final(self).spec_channels() == old(self).spec_channels(),
            final(self).spec_serial() == old(self).spec_serial(),
            final(self).spec_granule() == old(self).spec_granule(),
            final(self).spec_samples_written() == old(self).spec_samples_written(),
            final(self).packets() == old(self).packets(),
            final(self).spec_pending() == old(self).spec_pending(),
            final(self).spec_queued_total() == old(self).spec_queued_total(),
            final(self).spec_taken_total() == old(self).spec_taken_total(),
            match old(self).spec_resampler() {
                None => r is None && final(self).spec_resampler() is None,
                Some(rs) => {
                    &&& final(self).spec_resampler() matches Some(rs2) && rs2.spec_channels()
                        == rs.spec_channels() && rs2.is_warmed() == rs.is_warmed()
                    &&& (match r {
                        Some(chunk) => {
                            let w = crate::resample::RESAMPLER_INPUT_CHUNK * rs.spec_channels();
                            &&& rs.queued().len() >= w
                            &&& chunk@.len() == rs.spec_channels()
                            &&& forall|c: int|
                                0 <= c < chunk@.len() ==> (#[trigger] chunk@[c])@
                                    == crate::resample::deinterleave(
                                    rs.queued().take(w),
                                    c,
                                    rs.spec_channels(),
                                )
                            &&& final(self).spec_resampler()->0.queued() == rs.queued().skip(w)
                        },
                        None => {
                            &&& rs.queued().len() < crate::resample::RESAMPLER_INPUT_CHUNK
                                * rs.spec_channels()
                            &&& final(self).spec_resampler()->0.queued() == rs.queued()
                        },
                    })
                },
            },
    {
        match &mut self.resampler {
            Some(rs) => rs.take_chunk(),
            None => None,
        }
    }

    /// Accepts the converter's output blocks for one chunk and appends
    /// their re-interleaved samples to the pending buffer — except the
    /// warm-up block, which is discarded and appends nothing.
    pub fn accept_converted(&mut self, blocks: &Vec<Vec<u32>>)
        requires
            old(self).wf(),
            old(self).spec_resampler() matches Some(rs) && blocks@.len() == rs.spec_channels(),
            uniform_blocks(blocks@.map_values(|b: Vec<u32>| b@), blocks@[0]@.len() as int),
            blocks@[0]@.len() * blocks@.len() <= usize::MAX,
            old(self).spec_pending().len() + blocks@[0]@.len() * blocks@.len() <= usize::MAX,
        ensures
            final(self).wf(),
            final(self).spec_channels() == old(self).spec_channels(),
            final(self).spec_serial() == old(self).spec_serial(),
            final(self).spec_granule() == old(self).spec_granule(),
            final(self).spec_samples_written() == old(self).spec_samples_written(),
            final(self).packets() == old(self).packets(),
            final(self).spec_taken_total() == old(self).spec_taken_total(),
            final(self).spec_resampler() matches Some(rs2) && rs2.is_warmed() && rs2.queued()
                == old(self).spec_resampler()->0.queued(),
            final(self).spec_pending() == old(self).spec_pending() + (if old(
                self,
            ).spec_resampler()->0.is_warmed() {
                interleave(blocks@.map_values(|b: Vec<u32>| b@), blocks@[0]@.len() as int)
            } else {
                Seq::<u32>::empty()
            }),
            final(self).spec_queued_total() == old(self).spec_queued_total() + (if old(
                self,
            ).spec_resampler()->0.is_warmed() {
                blocks@[0]@.len() * blocks@.len()
            } else {
                0nat
            }),
    {
        let out = match &mut self.resampler {
            Some(rs) => rs.accept_converted(blocks),
            None => Vec::new(),
        };
        self.pending.extend_from_slice(out.as_slice());
        proof {
            self.queued_total@ = self.queued_total@ + out@.len();
            assert(old(self).spec_pending() + Seq::<u32>::empty() == old(self).spec_pending());
            vstd::arithmetic::div_mod::lemma_add_mod_noop(
                old(self).spec_pending().len() as int,
                out@.len() as int,
                self.spec_channels(),
            );
            vstd::arithmetic::div_mod::lemma_small_mod(0nat, self.channels as nat);
            if old(self).spec_resampler()->0.is_warmed() {
                let bv = blocks@.map_values(|b: Vec<u32>| b@);
                let bl = blocks@[0]@.len() as int;
                assert(out@.len() == bl * blocks@.len());
                vstd::arithmetic::div_mod::lemma_mod_multiples_basic(bl, self.spec_channels());
                assert(bl * blocks@.len() == bl * self.spec_channels());
            }
        }
    }

    /// Slices one full frame off the pending buffer, in arrival order,
    /// when one is complete.
    pub fn take_frame(&mut self) -> (r: Option<Vec<u32>>)
        requires
            old(self).wf(),
        ensures
            final(self).wf(),
            final(self).spec_channels() == old(self).spec_channels(),
            final(self).spec_serial() == old(self).spec_serial(),
            final(self).spec_granule() == old(self).spec_granule(),
            final(self).spec_samples_written() == old(self).spec_samples_written(),
            final(self).packets() == old(self).packets(),
            final(self).spec_resampler() == old(self).spec_resampler(),
            final(self).spec_queued_total() == old(self).spec_queued_total(),
            match r {
                Some(f) => {
                    &&& old(self).spec_pending().len() >= old(self).spec_frame_len()
                    &&& f@ == old(self).spec_pending().take(old(self).spec_frame_len())
                    &&& final(self).spec_pending() == old(self).spec_pending().skip(
                        old(self).spec_frame_len(),
                    )
                    &&& final(self).spec_taken_total() == old(self).spec_taken_total() + old(
                        self,
                    ).spec_frame_len()
                },
                None => {
                    &&& old(self).spec_pending().len() < old(self).spec_frame_len()
                    &&& final(self).spec_pending() == old(self).spec_pending()
                    &&& final(self).spec_taken_total() == old(self).spec_taken_total()
                },
            },
    {
        let flen: usize = FRAME_SAMPLES * (self.channels as usize);
        if self.pending.len() < flen {
            return None;
        }
        let rest = self.pending.split_off(flen);
        let mut frame = rest;
        std::mem::swap(&mut self.pending, &mut frame);
        proof {
            self.taken_total@ = self.taken_total@ + flen as nat;
            assert(frame@ == old(self).spec_pending().take(flen as int));
            assert(self.pending@ == old(self).spec_pending().skip(flen as int));
            vstd::arithmetic::div_mod::lemma_sub_mod_noop(
                old(self).spec_pending().len() as int,
                flen as int,
                self.spec_channels(),
            );
            vstd::arithmetic::div_mod::lemma_mod_multiples_basic(
                FRAME_SAMPLES as int,
                self.spec_channels(),
            );
            vstd::arithmetic::div_mod::lemma_small_mod(0nat, self.channels as nat);
        }
        Some(frame)
    }

    /// Closes out the pending buffer: a remaining partial frame is
    /// zero-padded to full frame length and handed out together with its
    /// true (unpadded) per-channel sample count; nothing when the buffer
    /// is empty. Afterwards nothing is pending.
    pub fn final_frame(&mut self) -> (r: Option<(Vec<u32>, usize)>)
        requires
            old(self).wf(),
            old(self).spec_pending().len() < old(self).spec_frame_len(),
        ensures
            final(self).wf(),
            final(self).spec_channels() == old(self).spec_channels(),
            final(self).spec_serial() == old(self).spec_serial(),
            final(self).spec_granule() == old(self).spec_granule(),
            final(self).spec_samples_written() == old(self).spec_samples_written(),
            final(self).packets() == old(self).packets(),
            final(self).spec_resampler() == old(self).spec_resampler(),
            final(self).spec_pending().len() == 0,
            final(self).spec_queued_total() == old(self).spec_queued_total(),
            match r {
                Some((f, s)) => {
                    &&& old(self).spec_pending().len() > 0
                    &&& f@ == old(self).spec_pending() + Seq::new(
                        (old(self).spec_frame_len() - old(self).spec_pending().len()) as nat,
                        |i: int| 0u32,
                    )
                    &&& f@.len() == old(self).spec_frame_len()
                    &&& s * old(self).spec_channels() == old(self).spec_pending().len()
                    &&& 1 <= s <= FRAME_SAMPLES
                    &&& final(self).spec_taken_total() == old(self).spec_taken_total() + old(
                        self,
                    ).spec_pending().len()
                },
                None => {
                    &&& old(self).spec_pending().len() == 0
                    &&& final(self).spec_taken_total() == old(self).spec_taken_total()
                },
            },
    {
        if self.pending.len() == 0 {
            return None;
        }
        let flen: usize = FRAME_SAMPLES * (self.channels as usize);
        let plen = self.pending.len();
        let s: usize = plen / (self.channels as usize);
        let mut frame: Vec<u32> = Vec::new();
        std::mem::swap(&mut self.pending, &mut frame);
        frame.resize(flen, 0u32);
        proof {
            self.taken_total@ = self.taken_total@ + plen as nat;
            let ch = old(self).spec_channels();
            vstd::arithmetic::div_mod::lemma_fundamental_div_mod(plen as int, ch);
            assert(plen as int == ch * (plen as int / ch));
            assert(s * ch == plen) by (nonlinear_arith)
                requires
                    s == plen as int / ch,
                    plen as int == ch * (plen as int / ch),
            ;
            assert(s >= 1) by (nonlinear_arith)
                requires
                    s * ch == plen,
                    plen > 0,
                    1 <= ch <= 2,
                    0 <= s,
            ;
            assert(s <= FRAME_SAMPLES) by (nonlinear_arith)
                requires
                    s * ch == plen,
                    plen < FRAME_SAMPLES * ch,
                    1 <= ch,
                    0 <= s,
            ;
            assert(frame@ =~= old(self).spec_pending() + Seq::new(
                (flen - plen) as nat,
                |i: int| 0u32,
            ));
            vstd::arithmetic::div_mod::lemma_small_mod(0nat, self.channels as nat);
        }
        Some((frame, s))
    }

    /// Writes one compressed frame as a normal data packet, advancing the
    /// granule position and sample counter by the frame's true sample
    /// count.
    pub fn write_audio_packet(&mut self, packet: Vec<u8>, samples_in_frame: usize)
        requires
            old(self).wf(),
            1 <= samples_in_frame,
            old(self).spec_samples_written() + samples_in_frame <= u64::MAX,
        ensures
            final(self).wf(),
            final(self).spec_channels() == old(self).spec_channels(),
            final(self).spec_serial() == old(self).spec_serial(),
            final(self).spec_pending() == old(self).spec_pending(),
            final(self).spec_resampler() == old(self).spec_resampler(),
            final(self).spec_queued_total() == old(self).spec_queued_total(),
            final(self).spec_taken_total() == old(self).spec_taken_total(),
            final(self).spec_granule() == old(self).spec_granule() + samples_in_frame,
            final(self).spec_samples_written() == old(self).spec_samples_written()
                + samples_in_frame,
            final(self).packets() == old(self).packets().push(
                (packet@, old(self).spec_serial(), (old(self).spec_granule()
                    + samples_in_frame) as u64, PACKET_NORMAL),
            ),
    {
        self.granule_position = self.granule_position + samples_in_frame as u64;
        self.samples_written = self.samples_written + samples_in_frame as u64;
        packet_writer_write(
            &mut self.writer,
            packet,
            self.stream_serial,
            PacketEnd::Normal,
            self.granule_position,
        );
    }

    /// Ends the stream. A session that wrote no samples at all fails with
    /// the empty-recording error; otherwise the container is closed with a
    /// zero-length end-of-stream packet and the complete container bytes
    /// and total sample count are returned.
    pub fn finish(self) -> (r: Result<(Vec<u8>, u64), RecordingError>)
        requires
            self.wf(),
            self.spec_pending().len() == 0,
        ensures
            r is Ok <==> self.spec_samples_written() > 0,
            match r {
                Ok((bytes, total)) => total == self.spec_samples_written() && bytes@
                    == ogg_frame_bytes(
                    self.packets().push(
                        (Seq::<u8>::empty(), self.spec_serial(), self.spec_granule(),
                        PACKET_END_STREAM),
                    ),
                ),
                Err(e) => e == RecordingError::Empty,
            },
    {
        if self.samples_written == 0 {
            return Err(RecordingError::Empty);
        }
        let OggOpusWriter { writer, stream_serial, granule_position, samples_written, .. } = self;
        let mut w = writer;
        packet_writer_write(&mut w, Vec::new(), stream_serial, PacketEnd::EndStream, granule_position);
        let bytes = packet_writer_into_bytes(w);
        Ok((bytes, samples_written))
    }
}

/// Duration in whole milliseconds of a sample count at the encode rate.
pub fn duration_ms(samples_written: u64) -> (r: i64)
    ensures
        r == samples_written * 1000 / (ENCODE_SAMPLE_RATE as int),
{
    let d: u128 = (samples_written as u128) * 1000 / (ENCODE_SAMPLE_RATE as u128);
    proof {
        vstd::arithmetic::div_mod::lemma_div_is_ordered(
            samples_written * 1000,
            0xffff_ffff_ffff_ffffu64 * 1000,
            ENCODE_SAMPLE_RATE as int,
        );
    }
    d as i64
}

/// The artifact of a finished session: identity and format copied through,
/// duration computed from the true sample count at the encode rate.
pub fn make_artifact(id: String, filepath: String, channels: u32, samples_written: u64, size: i64) -> (r:
    RecordingArtifact)
    ensures
        r.id == id,
        r.filepath == filepath,
        r.sample_rate == ENCODE_SAMPLE_RATE,
        r.channels == channels,
        r.duration_ms == samples_written * 1000 / (ENCODE_SAMPLE_RATE as int),
        r.size == size,
{
    let duration_ms = duration_ms(samples_written);
    RecordingArtifact {
        id,
        filepath,
        sample_rate: ENCODE_SAMPLE_RATE,
        channels,
        duration_ms,
        size,
    }
}

/// Conservation without rate conversion: when the source rate equals the
/// encode rate no converter exists, samples join the pending buffer
/// unchanged, and every word ever queued was either handed out in a full
/// or final (padded) frame or still waits in the pending buffer — none is
/// lost and none is invented.
pub proof fn lemma_passthrough_conservation(w: OggOpusWriter)
    requires
        w.wf(),
        w.spec_resampler() is None,
    ensures
        w.spec_queued_total() == w.spec_taken_total() + w.spec_pending().len(),
{
}

} // verus!
