//! The stateful FIFO side of sample-rate conversion: de-interleaving into
//! fixed-size converter input chunks, discarding the converter's warm-up
//! block, and re-interleaving converted output. The numeric conversion
//! itself runs outside; samples pass through here as opaque 32-bit words.
use vstd::prelude::*;

verus! {

/// How many samples per channel one converter input chunk holds.
pub const RESAMPLER_INPUT_CHUNK: usize = 1024;

/// Channel `c` of an interleaved sequence of `channels`-sample frames.
pub open spec fn deinterleave(s: Seq<u32>, c: int, channels: int) -> Seq<u32> {
    Seq::new(s.len() / (channels as nat), |j: int| s[j * channels + c])
}

/// Per-channel blocks of equal length `len` merged back into an interleaved
/// sequence.
pub open spec fn interleave(blocks: Seq<Seq<u32>>, len: int) -> Seq<u32> {
    Seq::new(
        (len * blocks.len()) as nat,
        |i: int| blocks[i % (blocks.len() as int)][i / (blocks.len() as int)],
    )
}

/// All blocks have length `len`.
pub open spec fn uniform_blocks(blocks: Seq<Seq<u32>>, len: int) -> bool {
    forall|c: int| 0 <= c < blocks.len() ==> (#[trigger] blocks[c]).len() == len
}

/// Buffers interleaved samples until full converter input chunks are
/// available, and re-interleaves converted blocks, discarding the first
/// (the converter's warm-up artifact).
pub struct InterleavedResampler {
    channels: usize,
    fifo: Vec<u32>,
    warmed: bool,
}

impl InterleavedResampler {
    /// The number of interleaved channels.
    pub closed spec fn spec_channels(self) -> int {
        self.channels as int
    }

    /// The not-yet-converted samples, interleaved, in arrival order.
    pub closed spec fn queued(self) -> Seq<u32> {
        self.fifo@
    }

    /// Whether the warm-up block has been discarded already.
    pub closed spec fn is_warmed(self) -> bool {
        self.warmed
    }

    /// One or two channels, and whole frames only in the queue.
    pub open spec fn wf(self) -> bool {
        &&& 1 <= self.spec_channels() <= 2
        &&& self.queued().len() as int % self.spec_channels() == 0
    }

    /// A fresh converter front end: nothing queued, warm-up still ahead.
    pub fn new(channels: usize) -> (r: InterleavedResampler)
        requires
            1 <= channels <= 2,
        ensures
            r.wf(),
            r.spec_channels() == channels,
            r.queued().len() == 0,
            !r.is_warmed(),
    {
        let r = InterleavedResampler { channels, fifo: Vec::new(), warmed: false };
        proof {
            vstd::arithmetic::div_mod::lemma_small_mod(0nat, channels as nat);
        }
        r
    }

    /// The number of interleaved channels.
    pub fn channels(&self) -> (r: usize)
        ensures
            r == self.spec_channels(),
    {
        self.channels
    }

    /// How many samples wait for conversion, summed over channels.
    pub fn queued_len(&self) -> (r: usize)
        ensures
            r == self.queued().len(),
    {
        self.fifo.len()
    }

    /// Queues one interleaved chunk as delivered by the capture source.
    pub fn push_interleaved(&mut self, samples: &Vec<u32>)
        requires
            old(self).wf(),
            samples@.len() as int % old(self).spec_channels() == 0,
            old(self).queued().len() + samples@.len() <= usize::MAX,
        ensures
            final(self).wf(),
            final(self).spec_channels() == old(self).spec_channels(),
            final(self).is_warmed() == old(self).is_warmed(),
            final(self).queued() == old(self).queued() + samples@,
    {
        let mut i: usize = 0;
        while i < samples.len()
            invariant
                i <= samples@.len(),
                self.channels == old(self).channels,
                self.warmed == old(self).warmed,
                self.fifo@ == old(self).fifo@ + samples@.take(i as int),
                old(self).queued().len() + samples@.len() <= usize::MAX,
            decreases samples@.len() - i,
        {
            self.fifo.push(samples[i]);
            proof {
                assert(samples@.take(i + 1) == samples@.take(i as int).push(samples@[i as int]));
            }
            i += 1;
        }
        proof {
            assert(samples@.take(samples@.len() as int) == samples@);
            vstd::arithmetic::div_mod::lemma_add_mod_noop(
                old(self).queued().len() as int,
                samples@.len() as int,
                self.spec_channels(),
            );
            vstd::arithmetic::div_mod::lemma_small_mod(0nat, self.channels as nat);
        }
    }

    /// A queue of whole frames crosses the one-chunk line exactly when its
    /// per-channel depth does.
    proof fn lemma_queue_threshold(self)
        requires
            self.wf(),
        ensures
            (self.queued().len() as int / self.spec_channels() >= RESAMPLER_INPUT_CHUNK) == (
            self.queued().len() >= RESAMPLER_INPUT_CHUNK * self.spec_channels()),
    {
        let len = self.queued().len() as int;
        let ch = self.spec_channels();
        vstd::arithmetic::div_mod::lemma_fundamental_div_mod(len, ch);
        assert(len == ch * (len / ch));
        if len / ch >= RESAMPLER_INPUT_CHUNK {
            assert(ch * (len / ch) >= ch * RESAMPLER_INPUT_CHUNK) by (nonlinear_arith)
                requires
                    len / ch >= RESAMPLER_INPUT_CHUNK,
                    ch >= 1,
            ;
        } else {
            assert(ch * (len / ch) < ch * RESAMPLER_INPUT_CHUNK) by (nonlinear_arith)
                requires
                    len / ch < RESAMPLER_INPUT_CHUNK,
                    ch >= 1,
            ;
        }
    }

    /// Takes one converter input chunk, de-interleaved into per-channel
    /// blocks of `RESAMPLER_INPUT_CHUNK` samples, when enough is queued.
    pub fn take_chunk(&mut self) -> (r: Option<Vec<Vec<u32>>>)
        requires
            old(self).wf(),
        ensures
            final(self).wf(),
            final(self).spec_channels() == old(self).spec_channels(),
            final(self).is_warmed() == old(self).is_warmed(),
            match r {
                Some(chunk) => {
                    let w = RESAMPLER_INPUT_CHUNK * old(self).spec_channels();
                    &&& old(self).queued().len() >= w
                    &&& chunk@.len() == old(self).spec_channels()
                    &&& forall|c: int|
                        0 <= c < chunk@.len() ==> (#[trigger] chunk@[c])@ == deinterleave(
                            old(self).queued().take(w),
                            c,
                            old(self).spec_channels(),
                        )
                    &&& final(self).queued() == old(self).queued().skip(w)
                },
                None => {
                    &&& old(self).queued().len() < RESAMPLER_INPUT_CHUNK * old(
                        self,
                    ).spec_channels()
                    &&& final(self).queued() == old(self).queued()
                },
            },
    {
        proof {
            self.lemma_queue_threshold();
        }
        let ch = self.channels;
        if self.fifo.len() / ch < RESAMPLER_INPUT_CHUNK {
            return None;
        }
        let w: usize = RESAMPLER_INPUT_CHUNK * ch;
        let mut chunk: Vec<Vec<u32>> = Vec::new();
        let mut c: usize = 0;
        while c < ch
            invariant
                c <= ch,
                w == RESAMPLER_INPUT_CHUNK * ch,
                self == old(self),
                self.fifo@.len() >= w,
                1 <= ch <= 2,
                ch == self.channels,
                chunk@.len() == c,
                forall|k: int|
                    0 <= k < c ==> (#[trigger] chunk@[k])@ == deinterleave(
                        self.fifo@.take(w as int),
                        k,
                        ch as int,
                    ),
            decreases ch - c,
        {
            let mut block: Vec<u32> = Vec::new();
            let mut j: usize = 0;
            while j < RESAMPLER_INPUT_CHUNK
                invariant
                    j <= RESAMPLER_INPUT_CHUNK,
                    c < ch,
                    w == RESAMPLER_INPUT_CHUNK * ch,
                    self.fifo@.len() >= w,
                    1 <= ch <= 2,
                    ch == self.channels,
                    block@.len() == j,
                    forall|k: int|
                        0 <= k < j ==> #[trigger] block@[k] == self.fifo@[k * ch + c],
                decreases RESAMPLER_INPUT_CHUNK - j,
            {
                proof {
                    assert(j * ch + c < w) by (nonlinear_arith)
                        requires
                            0 <= j < RESAMPLER_INPUT_CHUNK,
                            0 <= c < ch,
                            w == RESAMPLER_INPUT_CHUNK * ch,
                    ;
                }
                block.push(self.fifo[j * ch + c]);
                j += 1;
            }
            proof {
                let d = deinterleave(self.fifo@.take(w as int), c as int, ch as int);
                assert((RESAMPLER_INPUT_CHUNK * ch) as nat / (ch as nat)
                    == RESAMPLER_INPUT_CHUNK) by (nonlinear_arith)
                    requires
                        1 <= ch,
                ;
                assert(d.len() == RESAMPLER_INPUT_CHUNK);
                assert forall|k: int| 0 <= k < RESAMPLER_INPUT_CHUNK implies block@[k] == d[k] by {
                    assert(k * (ch as int) + c < w) by (nonlinear_arith)
                        requires
                            0 <= k < RESAMPLER_INPUT_CHUNK,
                            0 <= c < ch,
                            w == RESAMPLER_INPUT_CHUNK * ch,
                    ;
                    assert(self.fifo@.take(w as int)[k * (ch as int) + c] == self.fifo@[k * (
                    ch as int) + c]);
                }
                assert(block@ == d);
            }
            chunk.push(block);
            c += 1;
        }
        let rest = self.fifo.split_off(w);
        let mut head = rest;
        std::mem::swap(&mut self.fifo, &mut head);
        proof {
            assert(self.fifo@ == old(self).fifo@.skip(w as int));
            vstd::arithmetic::div_mod::lemma_sub_mod_noop(
                old(self).fifo@.len() as int,
                w as int,
                ch as int,
            );
            vstd::arithmetic::div_mod::lemma_mod_multiples_basic(
                RESAMPLER_INPUT_CHUNK as int,
                ch as int,
            );
            vstd::arithmetic::div_mod::lemma_small_mod(0nat, ch as nat);
        }
        Some(chunk)
    }

    /// Accepts the converter's output for one input chunk and re-interleaves
    /// it — except the very first block, the warm-up artifact, which is
    /// discarded unconditionally and yields nothing.
    pub fn accept_converted(&mut self, blocks: &Vec<Vec<u32>>) -> (r: Vec<u32>)
        requires
            old(self).wf(),
            blocks@.len() == old(self).spec_channels(),
            uniform_blocks(blocks@.map_values(|b: Vec<u32>| b@), blocks@[0]@.len() as int),
            blocks@[0]@.len() * blocks@.len() <= usize::MAX,
        ensures
            final(self).wf(),
            final(self).spec_channels() == old(self).spec_channels(),
            final(self).queued() == old(self).queued(),
            final(self).is_warmed(),
            r@ == if old(self).is_warmed() {
                interleave(blocks@.map_values(|b: Vec<u32>| b@), blocks@[0]@.len() as int)
            } else {
                Seq::<u32>::empty()
            },
    {
        if !self.warmed {
            self.warmed = true;
            return Vec::new();
        }
        let ch = self.channels;
        let len = blocks[0].len();
        let mut out: Vec<u32> = Vec::new();
        let ghost bv = blocks@.map_values(|b: Vec<u32>| b@);
        let mut i: usize = 0;
        while i < len
            invariant
                i <= len,
                ch == blocks@.len(),
                1 <= ch <= 2,
                len == bv[0].len(),
                bv == blocks@.map_values(|b: Vec<u32>| b@),
                uniform_blocks(bv, len as int),
                len * ch <= usize::MAX,
                out@.len() == i * ch,
                forall|k: int|
                    0 <= k < out@.len() ==> #[trigger] out@[k] == bv[k % (ch as int)][k / (
                    ch as int)],
            decreases len - i,
        {
            let mut c: usize = 0;
            while c < ch
                invariant
                    c <= ch,
                    i < len,
                    ch == blocks@.len(),
                    1 <= ch <= 2,
                    len == bv[0].len(),
                    bv == blocks@.map_values(|b: Vec<u32>| b@),
                    uniform_blocks(bv, len as int),
                    len * ch <= usize::MAX,
                    out@.len() == i * ch + c,
                    forall|k: int|
                        0 <= k < out@.len() ==> #[trigger] out@[k] == bv[k % (ch as int)][k / (
                        ch as int)],
                decreases ch - c,
            {
                proof {
                    assert(bv[c as int].len() == len);
                    assert(i * ch + c < len * ch) by (nonlinear_arith)
                        requires
                            0 <= i < len,
                            0 <= c < ch,
                    ;
                    assert(((i * ch + c) as int) % (ch as int) == c && ((i * ch + c) as int) / (
                    ch as int) == i) by (nonlinear_arith)
                        requires
                            0 <= i,
                            0 <= c < ch,
                    ;
                }
                out.push(blocks[c][i]);
                proof {
                    assert((i * ch + c) + 1 == i * ch + (c + 1));
                }
                c += 1;
            }
            proof {
                assert(i * ch + ch == (i + 1) * ch) by (nonlinear_arith);
            }
            i += 1;
        }
        proof {
            let il = interleave(bv, len as int);
            assert(out@.len() == il.len()) by {
                assert(out@.len() == len * ch);
            }
            assert(out@ == il);
        }
        out
    }
}

} // verus!
