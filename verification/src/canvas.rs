//! The canvas: a square grid of red, green and blue channel accumulators.
//!
//! Each channel holds an opaque 64-bit word chosen by the caller — in the
//! compositing pipeline it is the bit pattern of a real-valued accumulator —
//! and the canvas never interprets it: it only stores and returns words. A
//! fresh canvas holds the zero word in every channel, which is how the
//! pipeline encodes an accumulator of zero.

use vstd::prelude::*;

verus! {

/// Row-major storage position of channel `ch` of the pixel at `(r, c)`.
pub open spec fn channel_index(size: int, r: int, c: int, ch: int) -> int {
    (r * size + c) * 3 + ch
}

proof fn lemma_channel_index_bounds(size: int, r: int, c: int, ch: int)
    requires
        0 <= r < size,
        0 <= c < size,
        0 <= ch < 3,
    ensures
        0 <= channel_index(size, r, c, ch) < size * size * 3,
{
    assert(0 <= (r * size + c) * 3 + ch < size * size * 3) by (nonlinear_arith)
        requires 0 <= r < size, 0 <= c < size, 0 <= ch < 3;
}

proof fn lemma_channel_index_injective(size: int, r1: int, c1: int, ch1: int, r2: int, c2: int, ch2: int)
    requires
        0 <= r1 < size,
        0 <= c1 < size,
        0 <= ch1 < 3,
        0 <= r2 < size,
        0 <= c2 < size,
        0 <= ch2 < 3,
        channel_index(size, r1, c1, ch1) == channel_index(size, r2, c2, ch2),
    ensures
        r1 == r2 && c1 == c2 && ch1 == ch2,
{
    assert((r1 * size + c1) * 3 + ch1 == (r2 * size + c2) * 3 + ch2
        ==> r1 == r2 && c1 == c2 && ch1 == ch2) by (nonlinear_arith)
        requires
            0 <= r1 < size, 0 <= c1 < size, 0 <= ch1 < 3,
            0 <= r2 < size, 0 <= c2 < size, 0 <= ch2 < 3;
}

/// The grid itself.
pub struct Canvas {
    size: usize,
    data: Vec<u64>,
}

impl Canvas {
    /// The side length.
    pub closed spec fn spec_size(&self) -> int {
        self.size as int
    }

    /// The storage holds exactly three words for each of the `size * size`
    /// pixels.
    pub closed spec fn wf(&self) -> bool {
        &&& 1 <= self.size
        &&& self.data.len() == self.size * self.size * 3
    }

    /// The word held by channel `ch` of the pixel at `(r, c)`.
    pub closed spec fn channel(&self, r: int, c: int, ch: int) -> u64 {
        self.data@[channel_index(self.size as int, r, c, ch)]
    }

    /// A fresh canvas: every channel of every pixel holds the zero word.
    pub fn new(size: usize) -> (canvas: Canvas)
        requires
            1 <= size,
            size * size * 3 <= usize::MAX,
        ensures
            canvas.wf(),
            canvas.spec_size() == size,
            forall|r: int, c: int, ch: int|
                0 <= r < size && 0 <= c < size && 0 <= ch < 3
                    ==> canvas.channel(r, c, ch) == 0,
    {
        let n = size * size * 3;
        let mut data: Vec<u64> = Vec::new();
        let mut i: usize = 0;
        while i < n
            invariant
                i <= n,
                data@.len() == i,
                forall|k: int| 0 <= k < i ==> data@[k] == 0,
            decreases n - i,
        {
            data.push(0);
            i = i + 1;
        }
        let canvas = Canvas { size, data };
        proof {
            assert forall|r: int, c: int, ch: int|
                0 <= r < size && 0 <= c < size && 0 <= ch < 3
                implies canvas.channel(r, c, ch) == 0 by {
                lemma_channel_index_bounds(size as int, r, c, ch);
            }
        }
        canvas
    }

    /// The side length, as the callers see it.
    pub fn size(&self) -> (s: usize)
        ensures
            s == self.spec_size(),
    {
        self.size
    }

    fn index_of(&self, r: usize, c: usize, ch: usize) -> (i: usize)
        requires
            self.wf(),
            r < self.spec_size(),
            c < self.spec_size(),
            ch < 3,
        ensures
            i == channel_index(self.spec_size(), r as int, c as int, ch as int),
            i < self.data.len(),
    {
        proof {
            lemma_channel_index_bounds(self.size as int, r as int, c as int, ch as int);
        }
        (r * self.size + c) * 3 + ch
    }

    /// The word held by one channel of one pixel.
    pub fn channel_word(&self, r: usize, c: usize, ch: usize) -> (w: u64)
        requires
            self.wf(),
            r < self.spec_size(),
            c < self.spec_size(),
            ch < 3,
        ensures
            w == self.channel(r as int, c as int, ch as int),
    {
        let i = self.index_of(r, c, ch);
        self.data[i]
    }

    /// The three channel words of the pixel at `(r, c)`.
    pub fn pixel(&self, r: usize, c: usize) -> (w: (u64, u64, u64))
        requires
            self.wf(),
            r < self.spec_size(),
            c < self.spec_size(),
        ensures
            w.0 == self.channel(r as int, c as int, 0),
            w.1 == self.channel(r as int, c as int, 1),
            w.2 == self.channel(r as int, c as int, 2),
    {
        (self.channel_word(r, c, 0), self.channel_word(r, c, 1), self.channel_word(r, c, 2))
    }

    /// Overwrite — not blend — the three channels of the pixel at `(r, c)`;
    /// every other pixel keeps its words.
    pub fn set_pixel(&mut self, r: usize, c: usize, w: (u64, u64, u64))
        requires
            old(self).wf(),
            r < old(self).spec_size(),
            c < old(self).spec_size(),
        ensures
            final(self).wf(),
            final(self).spec_size() == old(self).spec_size(),
            final(self).channel(r as int, c as int, 0) == w.0,
            final(self).channel(r as int, c as int, 1) == w.1,
            final(self).channel(r as int, c as int, 2) == w.2,
            forall|r2: int, c2: int, ch: int|
                0 <= r2 < old(self).spec_size() && 0 <= c2 < old(self).spec_size()
                    && 0 <= ch < 3 && !(r2 == r && c2 == c)
                    ==> final(self).channel(r2, c2, ch) == old(self).channel(r2, c2, ch),
    {
        let i0 = self.index_of(r, c, 0);
        self.data[i0] = w.0;
        let i1 = self.index_of(r, c, 1);
        self.data[i1] = w.1;
        let i2 = self.index_of(r, c, 2);
        self.data[i2] = w.2;
        proof {
            assert forall|r2: int, c2: int, ch: int|
                0 <= r2 < old(self).spec_size() && 0 <= c2 < old(self).spec_size()
                    && 0 <= ch < 3 && !(r2 == r && c2 == c)
                implies self.channel(r2, c2, ch) == old(self).channel(r2, c2, ch) by {
                lemma_channel_index_bounds(self.size as int, r2, c2, ch);
                let i = channel_index(self.size as int, r2, c2, ch);
                if i == channel_index(self.size as int, r as int, c as int, 0) {
                    lemma_channel_index_injective(
                        self.size as int, r2, c2, ch, r as int, c as int, 0);
                }
                if i == channel_index(self.size as int, r as int, c as int, 1) {
                    lemma_channel_index_injective(
                        self.size as int, r2, c2, ch, r as int, c as int, 1);
                }
                if i == channel_index(self.size as int, r as int, c as int, 2) {
                    lemma_channel_index_injective(
                        self.size as int, r2, c2, ch, r as int, c as int, 2);
                }
            }
        }
    }
}

} // verus!
