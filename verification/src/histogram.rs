//! The magnitude histogram and the half-mass walk that derives the
//! characteristic width used by tone mapping.

use vstd::prelude::*;

verus! {

/// Sum of the first `k` bucket counts.
pub open spec fn count_prefix(s: Seq<usize>, k: int) -> int
    decreases k,
{
    if k <= 0 {
        0
    } else {
        count_prefix(s, k - 1) + s[k - 1]
    }
}

/// Sum of all bucket counts.
pub open spec fn total(s: Seq<usize>) -> int {
    count_prefix(s, s.len() as int)
}

/// The running mass of the walk after `k` buckets. Bucket 0 contributes only
/// half of its count, rounded down: recorded magnitudes fold the positive and
/// the negative side into the same bucket, so near zero the first bucket is
/// double-counted relative to a one-sided distribution and only half of it
/// stands. Every later bucket contributes its full count.
pub open spec fn prefix_mass(s: Seq<usize>, k: int) -> int
    decreases k,
{
    if k <= 0 {
        0
    } else if k == 1 {
        (s[0] as int) / 2
    } else {
        prefix_mass(s, k - 1) + s[k - 1]
    }
}

/// The walk's stopping threshold: half of the `size * size * 3` channel
/// values of a canvas.
pub open spec fn half_mass_threshold(size: int) -> int {
    size * size * 3 / 2
}

proof fn lemma_count_prefix_monotone(s: Seq<usize>, j: int, k: int)
    requires
        0 <= j <= k,
    ensures
        count_prefix(s, j) <= count_prefix(s, k),
    decreases k - j,
{
    if j < k {
        lemma_count_prefix_monotone(s, j, k - 1);
    }
}

proof fn lemma_prefix_mass_bounds(s: Seq<usize>, k: int)
    requires
        0 <= k,
    ensures
        0 <= prefix_mass(s, k) <= count_prefix(s, k),
    decreases k,
{
    if k > 0 {
        lemma_prefix_mass_bounds(s, k - 1);
    }
}

proof fn lemma_count_prefix_push(s: Seq<usize>, v: usize, k: int)
    requires
        0 <= k <= s.len(),
    ensures
        count_prefix(s.push(v), k) == count_prefix(s, k),
    decreases k,
{
    if k > 0 {
        lemma_count_prefix_push(s, v, k - 1);
    }
}

proof fn lemma_count_prefix_update(s: Seq<usize>, i: int, v: usize, k: int)
    requires
        0 <= i < s.len(),
        0 <= k <= s.len(),
    ensures
        count_prefix(s.update(i, v), k)
            == count_prefix(s, k) + (if i < k { v - s[i] } else { 0 }),
    decreases k,
{
    if k > 0 {
        lemma_count_prefix_update(s, i, v, k - 1);
    }
}

proof fn lemma_elem_le_total(s: Seq<usize>, i: int)
    requires
        0 <= i < s.len(),
    ensures
        s[i] <= total(s),
{
    lemma_count_prefix_monotone(s, 0, i);
    lemma_count_prefix_monotone(s, i + 1, s.len() as int);
}

/// A magnitude histogram: `buckets()[b]` counts the recorded values whose
/// bucket index was `b`. The histogram keeps the number of values recorded
/// so far alongside the counts, and maintains that the counts sum to exactly
/// it — it never loses or invents mass.
pub struct Histogram {
    counts: Vec<usize>,
    recorded: usize,
}

impl Histogram {
    /// The bucket counts.
    pub closed spec fn buckets(&self) -> Seq<usize> {
        self.counts@
    }

    /// How many values have been recorded.
    pub closed spec fn recorded(&self) -> int {
        self.recorded as int
    }

    /// The bucket counts sum to the number of recorded values.
    pub closed spec fn wf(&self) -> bool {
        total(self.counts@) == self.recorded as int
    }

    /// Conservation of mass: a well-formed histogram's bucket counts sum to
    /// exactly the number of values recorded in it.
    pub proof fn lemma_mass_conserved(&self)
        requires
            self.wf(),
        ensures
            total(self.buckets()) == self.recorded(),
    {
    }

    /// An empty histogram: no buckets, nothing recorded.
    pub fn new() -> (h: Histogram)
        ensures
            h.wf(),
            h.recorded() == 0,
            h.buckets().len() == 0,
    {
        Histogram { counts: Vec::new(), recorded: 0 }
    }

    /// Number of buckets so far.
    pub fn bucket_len(&self) -> (n: usize)
        ensures
            n == self.buckets().len(),
    {
        self.counts.len()
    }

    /// The count held by one bucket.
    pub fn bucket_count(&self, i: usize) -> (n: usize)
        requires
            i < self.buckets().len(),
        ensures
            n == self.buckets()[i as int],
    {
        self.counts[i]
    }

    /// How many values have been recorded so far.
    pub fn recorded_count(&self) -> (n: usize)
        ensures
            n == self.recorded(),
    {
        self.recorded
    }

    /// Record one value in bucket `b`: the bucket list grows on demand with
    /// zero-filled buckets, bucket `b` goes up by one, and every other bucket
    /// keeps its count.
    pub fn record(&mut self, b: usize)
        requires
            old(self).wf(),
            old(self).recorded() < usize::MAX,
            b < usize::MAX,
        ensures
            final(self).wf(),
            final(self).recorded() == old(self).recorded() + 1,
            final(self).buckets().len()
                == (if old(self).buckets().len() <= b { b + 1 } else { old(self).buckets().len() as int }),
            final(self).buckets()[b as int]
                == 1 + (if b < old(self).buckets().len() { old(self).buckets()[b as int] as int } else { 0 }),
            forall|k: int| 0 <= k < final(self).buckets().len() && k != b
                ==> final(self).buckets()[k]
                    == (if k < old(self).buckets().len() { old(self).buckets()[k] } else { 0usize }),
    {
        let ghost orig = *self;
        while self.counts.len() <= b
            invariant
                b < usize::MAX,
                self.recorded == orig.recorded,
                total(self.counts@) == total(orig.counts@),
                orig.counts@.len() <= self.counts@.len(),
                self.counts@.len() <= b + 1 || self.counts@.len() == orig.counts@.len(),
                forall|k: int| 0 <= k < orig.counts@.len()
                    ==> self.counts@[k] == orig.counts@[k],
                forall|k: int| orig.counts@.len() <= k < self.counts@.len()
                    ==> self.counts@[k] == 0,
            decreases b + 1 - self.counts@.len(),
        {
            let ghost before = self.counts@;
            self.counts.push(0);
            proof {
                lemma_count_prefix_push(before, 0, before.len() as int);
            }
        }
        let ghost grown = self.counts@;
        let cur = self.counts[b];
        proof {
            if (b as int) < orig.counts@.len() {
                lemma_elem_le_total(grown, b as int);
            }
        }
        self.counts[b] = cur + 1;
        self.recorded = self.recorded + 1;
        proof {
            lemma_count_prefix_update(grown, b as int, (cur + 1) as usize, grown.len() as int);
        }
    }

    /// Walk the buckets in ascending order accumulating the running mass —
    /// half of bucket 0, then every full count — and stop at the first bucket
    /// whose running mass strictly exceeds the half-mass threshold. The
    /// result carries the accumulated count together with the stopping index;
    /// there is no stopping index when the mass never exceeds the threshold,
    /// and the caller then falls back to the default characteristic width of
    /// one bucket width.
    pub fn half_mass_stop(&self, size: usize) -> (r: (usize, Option<usize>))
        requires
            self.wf(),
            size * size * 3 <= usize::MAX,
        ensures
            (match r.1 {
                Some(i) => {
                    &&& i < self.buckets().len()
                    &&& prefix_mass(self.buckets(), i as int + 1)
                        > half_mass_threshold(size as int)
                    &&& forall|j: int| 0 <= j <= i
                        ==> prefix_mass(self.buckets(), j) <= half_mass_threshold(size as int)
                    &&& r.0 == prefix_mass(self.buckets(), i as int + 1)
                },
                None => {
                    &&& forall|j: int| 0 <= j <= self.buckets().len()
                        ==> prefix_mass(self.buckets(), j) <= half_mass_threshold(size as int)
                    &&& r.0 == prefix_mass(self.buckets(), self.buckets().len() as int)
                },
            }),
    {
        let threshold = size * size * 3 / 2;
        let n = self.counts.len();
        let mut count: usize = 0;
        let mut i: usize = 0;
        while i < n
            invariant
                self.wf(),
                i <= n,
                n == self.counts@.len(),
                threshold == half_mass_threshold(size as int),
                count == prefix_mass(self.counts@, i as int),
                forall|j: int| 0 <= j <= i
                    ==> prefix_mass(self.counts@, j) <= half_mass_threshold(size as int),
            decreases n - i,
        {
            let b = self.counts[i];
            let add = if i == 0 { b / 2 } else { b };
            proof {
                assert(prefix_mass(self.counts@, i as int + 1) == count + add);
                lemma_prefix_mass_bounds(self.counts@, i as int + 1);
                lemma_count_prefix_monotone(self.counts@, i as int + 1, n as int);
            }
            count = count + add;
            if count > threshold {
                return (count, Some(i));
            }
            i = i + 1;
        }
        (count, None)
    }
}

/// With every recorded value in the first bucket — the histogram of an
/// all-zero canvas — the halved bucket never strictly exceeds the half-mass
/// threshold, so the walk reaches no stopping index and the characteristic
/// width falls back to one bucket width.
pub proof fn lemma_all_mass_in_first_bucket(s: Seq<usize>, size: int)
    requires
        s.len() == 1,
        s[0] == size * size * 3,
    ensures
        forall|j: int| 0 <= j <= s.len() ==> prefix_mass(s, j) <= half_mass_threshold(size),
{
    assert(prefix_mass(s, 0) == 0);
    assert(prefix_mass(s, 1) == (s[0] as int) / 2);
}

/// The walk can never stop at the first bucket: its halved count is at most
/// half of the recorded mass. A stopping index is therefore at least 1, and
/// the characteristic width derived from one is a positive multiple of the
/// bucket width.
pub proof fn lemma_no_stop_at_first_bucket(s: Seq<usize>, size: int)
    requires
        s.len() >= 1,
        total(s) == size * size * 3,
    ensures
        prefix_mass(s, 1) <= half_mass_threshold(size),
{
    lemma_elem_le_total(s, 0);
}

} // verus!
