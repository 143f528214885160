//! The deterministic entropy bridge: a fixed ring of caller-fed 32-bit
//! words, read two at a time as one 64-bit word, with a cursor that wraps
//! modulo the queue capacity.

use vstd::prelude::*;

verus! {

/// Number of 32-bit entropy words the queue holds.
pub const QUEUE_LEN: usize = 8;

/// The 64-bit word composed from a high and a low 32-bit entropy word.
pub open spec fn word64_of(hi: u32, lo: u32) -> u64 {
    (((hi as u64) << 32u64) | (lo as u64)) as u64
}

/// The bytes of `w`, least significant first.
pub open spec fn le_bytes64(w: u64) -> Seq<u8> {
    seq![
        w as u8,
        (w >> 8u64) as u8,
        (w >> 16u64) as u8,
        (w >> 24u64) as u8,
        (w >> 32u64) as u8,
        (w >> 40u64) as u8,
        (w >> 48u64) as u8,
        (w >> 56u64) as u8,
    ]
}

/// The 64-bit word a draw yields when the cursor stands at `c`.
pub open spec fn draw_at(words: Seq<u32>, c: int) -> u64 {
    word64_of(words[c], words[c + 1])
}

/// The 32 bytes that four successive draws yield, starting at cursor `c`,
/// each drawn word laid out least significant byte first.
pub open spec fn block_from(words: Seq<u32>, c: int) -> Seq<u8> {
    le_bytes64(draw_at(words, c))
        + le_bytes64(draw_at(words, (c + 2) % (QUEUE_LEN as int)))
        + le_bytes64(draw_at(words, (c + 4) % (QUEUE_LEN as int)))
        + le_bytes64(draw_at(words, (c + 6) % (QUEUE_LEN as int)))
}

/// A caller-fed source of deterministic randomness.  The caller stores
/// 32-bit words by index; draws consume two consecutive words at the read
/// cursor and advance it by two positions modulo the queue capacity, so an
/// under-supplied queue replays earlier words.
pub struct EntropyQueue {
    /// The entropy words, stored by the caller before an operation.
    pub words: Vec<u32>,
    /// The read cursor; always even, so a draw never crosses the end.
    pub cursor: usize,
}

impl EntropyQueue {
    /// The queue's structural invariant: full capacity, cursor in range
    /// and even.
    pub open spec fn wf(self) -> bool {
        &&& self.words@.len() == QUEUE_LEN
        &&& self.cursor < QUEUE_LEN
        &&& self.cursor % 2 == 0
    }

    /// A queue of all-zero words with the cursor at the start.
    pub fn new() -> (r: EntropyQueue)
        ensures
            r.wf(),
            r.words@ == Seq::new(QUEUE_LEN as nat, |i: int| 0u32),
            r.cursor == 0,
    {
        let mut words: Vec<u32> = Vec::new();
        let mut i: usize = 0;
        while i < QUEUE_LEN
            invariant
                i <= QUEUE_LEN,
                words@ == Seq::new(i as nat, |j: int| 0u32),
            decreases QUEUE_LEN - i,
        {
            words.push(0);
            assert(words@ =~= Seq::new((i + 1) as nat, |j: int| 0u32));
            i = i + 1;
        }
        EntropyQueue { words, cursor: 0 }
    }

    /// Store one entropy word; the cursor does not move.
    pub fn set_word(&mut self, i: usize, v: u32)
        requires
            old(self).wf(),
            i < QUEUE_LEN,
        ensures
            final(self).wf(),
            final(self).words@ == old(self).words@.update(i as int, v),
            final(self).cursor == old(self).cursor,
    {
        self.words.set(i, v);
    }

    /// Draw one 64-bit word: compose the two words under the cursor as
    /// `(high << 32) | low` and advance the cursor by two, wrapping
    /// modulo the queue capacity.
    pub fn next_word64(&mut self) -> (r: u64)
        requires
            old(self).wf(),
        ensures
            final(self).wf(),
            r == draw_at(old(self).words@, old(self).cursor as int),
            final(self).cursor == (old(self).cursor + 2) % (QUEUE_LEN as int),
            final(self).words@ == old(self).words@,
    {
        let hi = self.words[self.cursor];
        let lo = self.words[self.cursor + 1];
        let w = ((hi as u64) << 32u64) | (lo as u64);
        self.cursor = (self.cursor + 2) % QUEUE_LEN;
        w
    }

    /// Draw one 32-bit word: the low half of the next 64-bit draw, which
    /// is the entropy word just past the cursor.  The cursor still
    /// advances by two.
    pub fn next_word32(&mut self) -> (r: u32)
        requires
            old(self).wf(),
        ensures
            final(self).wf(),
            r == old(self).words@[old(self).cursor + 1],
            final(self).cursor == (old(self).cursor + 2) % (QUEUE_LEN as int),
            final(self).words@ == old(self).words@,
    {
        let w = self.next_word64();
        let r = w as u32;
        proof {
            let hi = self.words@[old(self).cursor as int];
            let lo = self.words@[old(self).cursor + 1];
            assert(((((hi as u64) << 32u64) | (lo as u64)) as u32) == lo)
                by (bit_vector);
        }
        r
    }

    /// Draw four 64-bit words and lay their bytes out in order, least
    /// significant first.  Four draws advance the cursor by eight
    /// positions, a full turn of the ring, so it ends where it began.
    pub fn next_block(&mut self) -> (r: Vec<u8>)
        requires
            old(self).wf(),
        ensures
            final(self).wf(),
            r@ == block_from(old(self).words@, old(self).cursor as int),
            r@.len() == 32,
            final(self).cursor == old(self).cursor,
            final(self).words@ == old(self).words@,
    {
        proof {
            let c0 = old(self).cursor as int;
            assert(c0 == 0 || c0 == 2 || c0 == 4 || c0 == 6);
        }
        let w0 = self.next_word64();
        let w1 = self.next_word64();
        let w2 = self.next_word64();
        let w3 = self.next_word64();
        let mut out: Vec<u8> = Vec::new();
        push_le_bytes(&mut out, w0);
        push_le_bytes(&mut out, w1);
        push_le_bytes(&mut out, w2);
        push_le_bytes(&mut out, w3);
        proof {
            assert(out@ =~= block_from(old(self).words@, old(self).cursor as int));
        }
        out
    }
}

/// Append the eight bytes of `w` to `out`, least significant first.
fn push_le_bytes(out: &mut Vec<u8>, w: u64)
    ensures
        final(out)@ == old(out)@ + le_bytes64(w),
{
    out.push(#[verifier::truncate] (w as u8));
    out.push(#[verifier::truncate] ((w >> 8u64) as u8));
    out.push(#[verifier::truncate] ((w >> 16u64) as u8));
    out.push(#[verifier::truncate] ((w >> 24u64) as u8));
    out.push(#[verifier::truncate] ((w >> 32u64) as u8));
    out.push(#[verifier::truncate] ((w >> 40u64) as u8));
    out.push(#[verifier::truncate] ((w >> 48u64) as u8));
    out.push(#[verifier::truncate] ((w >> 56u64) as u8));
    proof {
        assert(out@ =~= old(out)@ + le_bytes64(w));
    }
}

} // verus!
