//! A memoizing statistics aggregator over a finished set of `u64` samples.
//!
//! Every statistic is computed on its first request and kept: the mean, the
//! ascending order of the samples (sorted once, shared by every rank query),
//! each requested percentile or permicrotile, and the maximum.

use std::collections::HashMap;
use vstd::prelude::*;
use vstd::relations::{sorted_by, total_ordering};
use vstd::seq_lib::lemma_sorted_unique;

verus! {

broadcast use vstd::std_specs::hash::group_hash_axioms;

/// The order in which rank queries read the samples.
pub open spec fn ascending() -> spec_fn(u64, u64) -> bool {
    |a: u64, b: u64| a <= b
}

/// The samples in ascending order.
pub open spec fn sorted_of(s: Seq<u64>) -> Seq<u64> {
    s.sort_by(ascending())
}

/// The sum of the samples.
pub open spec fn total(s: Seq<u64>) -> int
    decreases s.len(),
{
    if s.len() == 0 {
        0
    } else {
        total(s.drop_last()) + s.last()
    }
}

/// The position in the ascending order that the `p`-th percentile reads.
pub open spec fn percentile_index(n: int, p: int) -> int {
    n * p / 100
}

/// The position in the ascending order that the `q`-th permicrotile
/// (parts per million) reads.
pub open spec fn permicrotile_index(n: int, q: int) -> int {
    n * q / 1_000_000
}

/// A rank that `percentile` accepts.
pub open spec fn is_percentile(p: int) -> bool {
    0 <= p < 100
}

/// A rank that `permicrotile` accepts: strictly between 99% and 100%.
pub open spec fn is_permicrotile(q: int) -> bool {
    990_000 < q < 1_000_000
}

/// The sample at `rank` in ascending order, for a rank of either kind.
pub open spec fn rank_value(s: Seq<u64>, rank: int) -> u64 {
    if is_percentile(rank) {
        sorted_of(s)[percentile_index(s.len() as int, rank)]
    } else {
        sorted_of(s)[permicrotile_index(s.len() as int, rank)]
    }
}

/// Ascending order on `u64` is a total order.
pub proof fn lemma_ascending_is_total()
    ensures
        total_ordering(ascending()),
{
}

/// The ascending order keeps the samples and their number.
pub proof fn lemma_sorted_of(s: Seq<u64>)
    ensures
        sorted_by(sorted_of(s), ascending()),
        sorted_of(s).to_multiset() == s.to_multiset(),
        sorted_of(s).len() == s.len(),
{
    lemma_ascending_is_total();
    s.lemma_sort_by_ensures(ascending());
    s.to_multiset_ensures();
    sorted_of(s).to_multiset_ensures();
}

/// The last sample of the ascending order, which `max` returns, is the largest
/// sample: it is one of the samples, and no sample exceeds it.
pub proof fn lemma_max_is_largest(s: Seq<u64>)
    requires
        s.len() > 0,
    ensures
        s.contains(sorted_of(s).last()),
        forall|i: int| 0 <= i < s.len() ==> s[i] <= #[trigger] sorted_of(s).last(),
{
    let t = sorted_of(s);
    lemma_sorted_of(s);
    s.to_multiset_ensures();
    t.to_multiset_ensures();
    assert(t.contains(t.last())) by {
        assert(t[t.len() - 1] == t.last());
    }
    assert(t.to_multiset().count(t.last()) > 0);
    assert forall|i: int| 0 <= i < s.len() implies s[i] <= #[trigger] t.last() by {
        assert(s.contains(s[i]));
        assert(s.to_multiset().count(s[i]) > 0);
        assert(t.contains(s[i]));
        let j = choose|j: int| 0 <= j < t.len() && t[j] == s[i];
        if j < t.len() - 1 {
            assert((ascending())(t[j], t[t.len() - 1]));
        }
    }
}

/// Percentiles never decrease with their rank: for `p1 <= p2`, the
/// `p1`-th percentile is at most the `p2`-th.
pub proof fn lemma_percentile_monotone(s: Seq<u64>, p1: int, p2: int)
    requires
        s.len() > 0,
        0 <= p1 <= p2 < 100,
    ensures
        sorted_of(s)[percentile_index(s.len() as int, p1)] <= sorted_of(s)[percentile_index(
            s.len() as int,
            p2,
        )],
{
    let n = s.len() as int;
    let i = percentile_index(n, p1);
    let j = percentile_index(n, p2);
    assert(0 <= i <= j < n) by (nonlinear_arith)
        requires
            i == n * p1 / 100,
            j == n * p2 / 100,
            0 <= p1 <= p2 < 100,
            n > 0,
    ;
    lemma_sorted_of(s);
    if i < j {
        assert((ascending())(sorted_of(s)[i], sorted_of(s)[j]));
    }
}

/// An exact mean: `numerator / denominator`, the sum of the samples over
/// their number.
#[derive(Clone, Copy, Debug, PartialEq, Eq)]
pub struct Fraction {
    pub numerator: u128,
    pub denominator: usize,
}

/// Relies on `slice::sort_unstable`: afterwards the same values stand in
/// ascending order.
#[verifier::external_body]
fn sort_ascending(v: &mut Vec<u64>)
    ensures
        sorted_by(final(v)@, ascending()),
        final(v)@.to_multiset() == old(v)@.to_multiset(),
{
    v.sort_unstable();
}

/// Statistics over one immutable set of samples, each computed at most once.
pub struct TimingStats {
    samples: Vec<u64>,
    cached_avg: Option<Fraction>,
    cached_sorted: Option<Vec<u64>>,
    cached_ranks: HashMap<usize, u64>,
    cached_max: Option<u64>,
}

impl TimingStats {
    /// The samples that the statistics describe.
    pub closed spec fn samples(&self) -> Seq<u64> {
        self.samples@
    }

    /// The mean, once it has been computed.
    pub closed spec fn avg_cache(&self) -> Option<Fraction> {
        self.cached_avg
    }

    /// The ascending order, once it has been computed.
    pub closed spec fn sorted_cache(&self) -> Option<Seq<u64>> {
        match self.cached_sorted {
            Some(v) => Some(v@),
            None => None,
        }
    }

    /// The ranks that have been computed, with their values.
    pub closed spec fn rank_cache(&self) -> Map<usize, u64> {
        self.cached_ranks@
    }

    /// The maximum, once it has been computed.
    pub closed spec fn max_cache(&self) -> Option<u64> {
        self.cached_max
    }

    /// Every cached value is the statistic that it stands for.
    pub closed spec fn wf(&self) -> bool {
        let s = self.samples@;
        &&& (self.cached_avg matches Some(f) ==> f == mean_of(s))
        &&& (self.cached_sorted matches Some(v) ==> v@ == sorted_of(s))
        &&& forall|k: usize| #[trigger]
            self.cached_ranks@.contains_key(k) ==> (is_percentile(k as int) || is_permicrotile(
                k as int,
            )) && s.len() > 0 && self.cached_ranks@[k] == rank_value(s, k as int)
        &&& (self.cached_max matches Some(m) ==> s.len() > 0 && m == sorted_of(s).last())
    }

    /// An aggregator over `samples`, with nothing computed yet.
    pub fn new(samples: Vec<u64>) -> (r: TimingStats)
        ensures
            r.wf(),
            r.samples() == samples@,
            r.avg_cache() is None,
            r.sorted_cache() is None,
            r.rank_cache().is_empty(),
            r.max_cache() is None,
    {
        TimingStats {
            samples,
            cached_avg: None,
            cached_sorted: None,
            cached_ranks: HashMap::new(),
            cached_max: None,
        }
    }

    /// The number of samples.
    pub fn len(&self) -> (r: usize)
        ensures
            r == self.samples().len(),
    {
        self.samples.len()
    }

    /// The mean of the samples as an exact fraction: their sum over their
    /// number. Computed on the first call; later calls return the kept value
    /// and change nothing.
    pub fn avg(&mut self) -> (r: Fraction)
        requires
            old(self).wf(),
        ensures
            final(self).wf(),
            r == mean_of(old(self).samples()),
            final(self).samples() == old(self).samples(),
            final(self).avg_cache() == Some(r),
            final(self).sorted_cache() == old(self).sorted_cache(),
            final(self).rank_cache() == old(self).rank_cache(),
            final(self).max_cache() == old(self).max_cache(),
            old(self).avg_cache() is Some ==> *final(self) == *old(self),
    {
        if let Some(avg) = self.cached_avg {
            return avg;
        }
        let n = self.samples.len();
        let mut sum: u128 = 0;
        let mut i: usize = 0;
        while i < n
            invariant
                n == self.samples@.len(),
                i <= n,
                sum == total(self.samples@.subrange(0, i as int)),
                sum <= i * (u64::MAX as int),
            decreases n - i,
        {
            let x = self.samples[i];
            proof {
                let prev = self.samples@.subrange(0, i as int);
                let next = self.samples@.subrange(0, i + 1);
                assert(next.drop_last() =~= prev);
                assert((i + 1) * (u64::MAX as int) == i * (u64::MAX as int) + u64::MAX)
                    by (nonlinear_arith);
                assert((i + 1) * (u64::MAX as int) <= u128::MAX) by (nonlinear_arith)
                    requires
                        i + 1 <= usize::MAX,
                ;
            }
            sum = sum + x as u128;
            i = i + 1;
        }
        assert(self.samples@.subrange(0, n as int) =~= self.samples@);
        let avg = Fraction { numerator: sum, denominator: n };
        self.cached_avg = Some(avg);
        avg
    }

    /// Computes and keeps the ascending order, unless it is already kept.
    fn ensure_sorted(&mut self)
        requires
            old(self).wf(),
        ensures
            final(self).wf(),
            final(self).samples() == old(self).samples(),
            final(self).sorted_cache() == Some(sorted_of(old(self).samples())),
            final(self).avg_cache() == old(self).avg_cache(),
            final(self).rank_cache() == old(self).rank_cache(),
            final(self).max_cache() == old(self).max_cache(),
            old(self).sorted_cache() is Some ==> *final(self) == *old(self),
    {
        if self.cached_sorted.is_some() {
            return;
        }
        let n = self.samples.len();
        let mut copy: Vec<u64> = Vec::with_capacity(n);
        let mut i: usize = 0;
        while i < n
            invariant
                n == self.samples@.len(),
                i <= n,
                copy@ == self.samples@.subrange(0, i as int),
            decreases n - i,
        {
            copy.push(self.samples[i]);
            i = i + 1;
        }
        assert(copy@ =~= self.samples@);
        sort_ascending(&mut copy);
        proof {
            lemma_sorted_of(self.samples@);
            lemma_ascending_is_total();
            lemma_sorted_unique(copy@, sorted_of(self.samples@), ascending());
        }
        self.cached_sorted = Some(copy);
    }

    /// The sample at `index` of the ascending order, which must be kept.
    fn sorted_at(&self, index: usize) -> (r: u64)
        requires
            self.wf(),
            self.sorted_cache() is Some,
            index < self.samples().len(),
        ensures
            r == sorted_of(self.samples())[index as int],
    {
        proof {
            lemma_sorted_of(self.samples@);
        }
        match &self.cached_sorted {
            Some(v) => v[index],
            None => 0,
        }
    }

    /// The `p`-th percentile: the sample at position `floor(N * p / 100)` of
    /// the ascending order, for `N` samples; `None` when there are none.
    /// Each rank is computed once and kept.
    pub fn percentile(&mut self, p: usize) -> (r: Option<u64>)
        requires
            old(self).wf(),
            is_percentile(p as int),
        ensures
            final(self).wf(),
            final(self).samples() == old(self).samples(),
            final(self).avg_cache() == old(self).avg_cache(),
            final(self).max_cache() == old(self).max_cache(),
            old(self).samples().len() == 0 ==> r is None && *final(self) == *old(self),
            old(self).samples().len() > 0 ==> {
                &&& r == Some(
                    sorted_of(old(self).samples())[percentile_index(
                        old(self).samples().len() as int,
                        p as int,
                    )],
                )
                &&& final(self).rank_cache() == old(self).rank_cache().insert(p, r->0)
            },
            old(self).rank_cache().contains_key(p) ==> *final(self) == *old(self),
    {
        self.rank(p, 100)
    }

    /// The `q`-th permicrotile, for `q` strictly between 990000 and 1000000
    /// parts per million: the sample at position `floor(N * q / 1000000)` of
    /// the ascending order; `None` when there are no samples. Each rank is
    /// computed once and kept.
    pub fn permicrotile(&mut self, q: usize) -> (r: Option<u64>)
        requires
            old(self).wf(),
            is_permicrotile(q as int),
        ensures
            final(self).wf(),
            final(self).samples() == old(self).samples(),
            final(self).avg_cache() == old(self).avg_cache(),
            final(self).max_cache() == old(self).max_cache(),
            old(self).samples().len() == 0 ==> r is None && *final(self) == *old(self),
            old(self).samples().len() > 0 ==> {
                &&& r == Some(
                    sorted_of(old(self).samples())[permicrotile_index(
                        old(self).samples().len() as int,
                        q as int,
                    )],
                )
                &&& final(self).rank_cache() == old(self).rank_cache().insert(q, r->0)
            },
            old(self).rank_cache().contains_key(q) ==> *final(self) == *old(self),
    {
        self.rank(q, 1_000_000)
    }

    /// The sample at position `floor(N * rank / scale)` of the ascending
    /// order, kept under `rank`.
    fn rank(&mut self, rank: usize, scale: usize) -> (r: Option<u64>)
        requires
            old(self).wf(),
            scale == 100 && is_percentile(rank as int) || scale == 1_000_000 && is_permicrotile(
                rank as int,
            ),
        ensures
            final(self).wf(),
            final(self).samples() == old(self).samples(),
            final(self).avg_cache() == old(self).avg_cache(),
            final(self).max_cache() == old(self).max_cache(),
            old(self).samples().len() == 0 ==> r is None && *final(self) == *old(self),
            old(self).samples().len() > 0 ==> {
                &&& r == Some(
                    sorted_of(old(self).samples())[(old(self).samples().len() * rank) / (scale as int)],
                )
                &&& final(self).rank_cache() == old(self).rank_cache().insert(rank, r->0)
            },
            old(self).rank_cache().contains_key(rank) ==> *final(self) == *old(self),
    {
        let n = self.samples.len();
        if n == 0 {
            assert(!self.cached_ranks@.contains_key(rank));
            return None;
        }
        if let Some(v) = self.cached_ranks.get(&rank) {
            let v = *v;
            proof {
                assert(self.cached_ranks@.insert(rank, v) =~= self.cached_ranks@);
            }
            return Some(v);
        }
        assert((n as int) * (rank as int) < u128::MAX) by (nonlinear_arith)
            requires
                n <= usize::MAX,
                rank < 1_000_000,
        ;
        let scaled: u128 = (n as u128) * (rank as u128) / (scale as u128);
        assert(scaled < n) by (nonlinear_arith)
            requires
                scaled == (n * rank) / (scale as int),
                rank < scale,
                n > 0,
                scale > 0,
        ;
        let index = scaled as usize;
        self.ensure_sorted();
        let v = self.sorted_at(index);
        self.cached_ranks.insert(rank, v);
        Some(v)
    }

    /// The largest sample (the last of the ascending order); `None` when there
    /// are none. Computed once and kept.
    pub fn max(&mut self) -> (r: Option<u64>)
        requires
            old(self).wf(),
        ensures
            final(self).wf(),
            final(self).samples() == old(self).samples(),
            final(self).avg_cache() == old(self).avg_cache(),
            final(self).rank_cache() == old(self).rank_cache(),
            old(self).samples().len() == 0 ==> r is None && *final(self) == *old(self),
            old(self).samples().len() > 0 ==> r == Some(sorted_of(old(self).samples()).last())
                && final(self).max_cache() == r,
            old(self).max_cache() is Some ==> *final(self) == *old(self),
    {
        if let Some(m) = self.cached_max {
            return Some(m);
        }
        let n = self.samples.len();
        if n == 0 {
            return None;
        }
        self.ensure_sorted();
        let m = self.sorted_at(n - 1);
        proof {
            lemma_sorted_of(self.samples@);
        }
        self.cached_max = Some(m);
        Some(m)
    }

    /// The samples, in the order in which they were given.
    pub fn samples_as_slice(&self) -> (r: &[u64])
        ensures
            r@ == self.samples(),
    {
        self.samples.as_slice()
    }
}

/// The exact mean of `s`: its sum over its length (0 / 0 when empty).
pub open spec fn mean_of(s: Seq<u64>) -> Fraction {
    Fraction { numerator: total(s) as u128, denominator: s.len() as usize }
}

} // verus!
