//! The decisions that the benchmark drivers take between measurements: how
//! much work a run does, which operation comes next, when to take a sample or
//! report progress, when to retry, and when to stop polling.

use vstd::prelude::*;

verus! {

/// Bytes in a gibibyte.
pub const GIB: u64 = 1_073_741_824;

/// Bytes in a page of memory.
pub const PAGE: u64 = 4096;

/// Progress is reported on every operation whose index is a multiple of this.
pub const REPORT_INTERVAL: usize = 100;

/// The attempts made at one key-value operation before the run gives up.
pub const MAX_ATTEMPTS: u32 = 2;

/// The pages of the region that the locality benchmark touches (4 GiB).
pub const REGION_PAGES: u64 = 1_048_576;

/// The pages at the start of the region that the local pattern cycles over.
pub const LOCAL_PAGES: u64 = 8;

/// The number of values of `value_size` bytes that fill `gigabytes` GiB,
/// rounded down; `None` when the byte count does not fit in a `u64` or the
/// value size is zero.
pub fn values_in_gigabytes(gigabytes: u64, value_size: u64) -> (r: Option<u64>)
    ensures
        match r {
            Some(n) => value_size > 0 && gigabytes * GIB <= u64::MAX && n == (gigabytes * GIB)
                / (value_size as int),
            None => value_size == 0 || gigabytes * GIB > u64::MAX,
        },
{
    if value_size == 0 || gigabytes > u64::MAX / GIB {
        return None;
    }
    Some(gigabytes * GIB / value_size)
}

/// Whether progress is reported after the operation at `index`.
pub fn reports_at(index: usize) -> (r: bool)
    ensures
        r == (index % REPORT_INTERVAL == 0),
{
    index % REPORT_INTERVAL == 0
}

/// Whether a key-value operation that has failed `failed_attempts` times is
/// tried again: a failed operation is retried exactly once, and the run gives
/// up when the retry fails too.
pub fn retry_after_failure(failed_attempts: u32) -> (r: bool)
    ensures
        r == (failed_attempts < MAX_ATTEMPTS),
{
    failed_attempts < MAX_ATTEMPTS
}

/// One step of the churn workload on a key-value store.
#[derive(Clone, Copy, Debug, PartialEq, Eq, Structural)]
pub enum KvOp {
    /// Store a large value under this key.
    Put(u64),
    /// Remove the value under this key.
    Delete(u64),
    /// The end of a phase of the workload.
    PhaseEnd,
}

/// The number of steps of the churn workload for `puts` initial puts: the
/// puts, a phase end, deletions of the first third of the keys, a phase end,
/// then puts of half as many new keys again.
pub open spec fn churn_len(puts: int) -> int {
    puts + 1 + puts / 3 + 1 + puts / 2
}

/// The step at `index` of the churn workload for `puts` initial puts.
pub open spec fn churn_op_spec(puts: int, index: int) -> KvOp {
    let deletes_from = puts + 1;
    let second_from = deletes_from + puts / 3 + 1;
    if index < puts {
        KvOp::Put(index as u64)
    } else if index == puts {
        KvOp::PhaseEnd
    } else if index < deletes_from + puts / 3 {
        KvOp::Delete((index - deletes_from) as u64)
    } else if index == deletes_from + puts / 3 {
        KvOp::PhaseEnd
    } else {
        KvOp::Put((puts + (index - second_from)) as u64)
    }
}

/// The number of steps of the churn workload for `puts` initial puts; `None`
/// when it does not fit in a `u64`.
pub fn churn_len_of(puts: u64) -> (r: Option<u64>)
    ensures
        match r {
            Some(n) => n == churn_len(puts as int),
            None => churn_len(puts as int) > u64::MAX,
        },
{
    let extra: u64 = puts / 3 + 2 + puts / 2;
    if puts > u64::MAX - extra {
        return None;
    }
    Some(puts + extra)
}

/// The step at `index` of the churn workload for `puts` initial puts.
pub fn churn_op(puts: u64, index: u64) -> (r: KvOp)
    requires
        index < churn_len(puts as int),
        churn_len(puts as int) <= u64::MAX,
    ensures
        r == churn_op_spec(puts as int, index as int),
{
    let deletes_from = puts + 1;
    let deletes_end = deletes_from + puts / 3;
    if index < puts {
        KvOp::Put(index)
    } else if index == puts {
        KvOp::PhaseEnd
    } else if index < deletes_end {
        KvOp::Delete(index - deletes_from)
    } else if index == deletes_end {
        KvOp::PhaseEnd
    } else {
        KvOp::Put(puts + (index - (deletes_end + 1)))
    }
}

/// What the compaction poller does after a reading.
#[derive(Clone, Copy, Debug, PartialEq, Eq, Structural)]
pub enum PollStep {
    /// Report the reading and keep polling.
    Report,
    /// Stop polling: a stop was asked for and the counter has settled.
    Stop,
}

/// The compaction poller: it keeps the operation count of its last reading.
#[derive(Clone, Copy, Debug, PartialEq, Eq)]
pub struct CompactionPoll {
    pub prev_ops: usize,
}

impl CompactionPoll {
    /// A poller that has read nothing yet (its last count is zero).
    pub fn new() -> (r: CompactionPoll)
        ensures
            r.prev_ops == 0,
    {
        CompactionPoll { prev_ops: 0 }
    }

    /// Takes a reading of `ops` operations. Once a stop has been asked for,
    /// polling ends at the first reading equal to the one before; any other
    /// reading is reported and becomes the last one.
    pub fn observe(&mut self, ops: usize, stop_requested: bool) -> (r: PollStep)
        ensures
            r == PollStep::Stop <==> stop_requested && ops == old(self).prev_ops,
            r == PollStep::Stop ==> *final(self) == *old(self),
            r == PollStep::Report ==> final(self).prev_ops == ops,
    {
        if stop_requested && ops == self.prev_ops {
            return PollStep::Stop;
        }
        self.prev_ops = ops;
        PollStep::Report
    }
}

/// What the page-touch benchmark writes into the pages.
#[derive(Clone, Copy, Debug, PartialEq, Eq, Structural)]
pub enum Pattern {
    /// Every page gets zero.
    Zeros,
    /// Each page gets one more than the page before, modulo 256.
    Counter,
}

/// The byte written into the page after one that got `val`.
pub fn next_fill(pattern: Pattern, val: u8) -> (r: u8)
    ensures
        r == match pattern {
            Pattern::Zeros => val as int,
            Pattern::Counter => (val + 1) % 256,
        },
{
    match pattern {
        Pattern::Zeros => val,
        Pattern::Counter => val.wrapping_add(1),
    }
}

/// Why a page-touch run cannot be planned.
#[derive(Clone, Copy, Debug, PartialEq, Eq, Structural)]
pub enum PlanError {
    /// No memory was given for the samples.
    NoSampleMemory,
    /// The memory for the samples does not fit in the address space.
    SampleMemoryTooLarge,
    /// The pages asked for do not even cover the memory for the samples.
    TooFewPages,
}

/// The shape of a page-touch run: the pages touched, the room for samples,
/// and how often a sample is taken (at every page whose index is a multiple
/// of `sample_every`).
#[derive(Clone, Copy, Debug, PartialEq, Eq)]
pub struct TouchPlan {
    pub pages: u64,
    pub samples: u64,
    pub sample_every: u64,
}

/// The plan for `requested_pages` pages of which `stats_gib` GiB hold the
/// samples (8 bytes each): the rest are touched, sampled every page when they
/// are fewer than the samples, else every `pages / samples + 1` pages.
pub open spec fn touch_plan_of(requested_pages: int, stats_gib: int) -> Result<
    TouchPlan,
    PlanError,
> {
    if stats_gib == 0 {
        Err(PlanError::NoSampleMemory)
    } else if stats_gib * GIB > u64::MAX {
        Err(PlanError::SampleMemoryTooLarge)
    } else if requested_pages < stats_gib * (GIB / PAGE) {
        Err(PlanError::TooFewPages)
    } else {
        let pages = requested_pages - stats_gib * (GIB / PAGE);
        let samples = stats_gib * GIB / 8;
        let every = if pages < samples {
            1
        } else {
            pages / samples + 1
        };
        Ok(TouchPlan { pages: pages as u64, samples: samples as u64, sample_every: every as u64 })
    }
}

/// The number of samples a run takes: one at each page index that is a
/// multiple of `every`.
pub open spec fn samples_taken(pages: int, every: int) -> int {
    (pages + every - 1) / every
}

/// Plans a page-touch run; see `touch_plan_of`.
pub fn touch_plan(requested_pages: u64, stats_gib: u64) -> (r: Result<TouchPlan, PlanError>)
    ensures
        r == touch_plan_of(requested_pages as int, stats_gib as int),
{
    if stats_gib == 0 {
        return Err(PlanError::NoSampleMemory);
    }
    if stats_gib > u64::MAX / GIB {
        return Err(PlanError::SampleMemoryTooLarge);
    }
    assert(stats_gib * 262144 <= u64::MAX && stats_gib * GIB <= u64::MAX) by (nonlinear_arith)
        requires
            stats_gib <= u64::MAX / 1_073_741_824,
    ;
    let stats_pages = stats_gib * (GIB / PAGE);
    if requested_pages < stats_pages {
        return Err(PlanError::TooFewPages);
    }
    let pages = requested_pages - stats_pages;
    let samples = stats_gib * GIB / 8;
    assert(samples >= 134_217_728);
    assert(pages / samples < u64::MAX) by (nonlinear_arith)
        requires
            samples >= 2,
    ;
    let every = if pages < samples {
        1
    } else {
        pages / samples + 1
    };
    Ok(TouchPlan { pages, samples, sample_every: every })
}

impl TouchPlan {
    /// Whether a sample is taken after touching the page at `index`.
    pub fn samples_at(&self, index: u64) -> (r: bool)
        requires
            self.sample_every > 0,
        ensures
            r == (index % self.sample_every == 0),
    {
        index % self.sample_every == 0
    }
}

/// A planned run never takes more samples than it has room for, so its
/// sample buffer never fills up.
pub proof fn lemma_touch_samples_fit(requested_pages: int, stats_gib: int)
    requires
        0 <= requested_pages <= u64::MAX,
        0 <= stats_gib <= u64::MAX,
        touch_plan_of(requested_pages, stats_gib) is Ok,
    ensures
        ({
            let p = touch_plan_of(requested_pages, stats_gib)->Ok_0;
            p.sample_every > 0 && samples_taken(p.pages as int, p.sample_every as int)
                <= p.samples
        }),
{
    let pages = requested_pages - stats_gib * (GIB / PAGE);
    let s = stats_gib * GIB / 8;
    assert(s >= 134_217_728);
    assert(pages <= u64::MAX && pages / s + 1 <= u64::MAX) by (nonlinear_arith)
        requires
            s >= 2,
            0 <= pages <= requested_pages <= u64::MAX,
    ;
    if pages >= s {
        let f = pages / s + 1;
        assert((pages + f - 1) / f <= s) by (nonlinear_arith)
            requires
                s > 0,
                pages >= 0,
                f == pages / s + 1,
        ;
    }
}

/// The byte offset into the region of the `step`-th access of the locality
/// benchmark: the local pattern cycles over the first eight pages; the
/// scattered one touches the page drawn at random.
pub fn access_offset(local: bool, step: u64, random_page: u64) -> (r: u64)
    requires
        random_page < REGION_PAGES,
    ensures
        r % PAGE == 0,
        r < REGION_PAGES * PAGE,
        local ==> r == (step % LOCAL_PAGES) * PAGE,
        !local ==> r == random_page * PAGE,
{
    if local {
        (step % LOCAL_PAGES) * PAGE
    } else {
        random_page * PAGE
    }
}

/// The number of accesses in a locality run of `n` iterations: all of them
/// when scattered; on the local pattern, whole rounds over the eight pages.
pub fn access_count(local: bool, n: u64) -> (r: u64)
    ensures
        local ==> r == n / LOCAL_PAGES * LOCAL_PAGES,
        !local ==> r == n,
{
    if local {
        n / LOCAL_PAGES * LOCAL_PAGES
    } else {
        n
    }
}

/// The 64-bit value whose high half is `hi` and low half is `lo`, as a
/// hypercall returns the host's elapsed time in two 32-bit registers.
pub fn join_halves(hi: u32, lo: u32) -> (r: u64)
    ensures
        r == hi * 0x1_0000_0000 + lo,
{
    let r = (lo as u64) | ((hi as u64) << 32u64);
    assert(r == hi * 0x1_0000_0000 + lo) by (bit_vector)
        requires
            r == (lo as u64) | ((hi as u64) << 32u64),
    ;
    r
}

} // verus!
