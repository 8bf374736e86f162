//! A fixed-capacity, append-only buffer of `u64` samples in pinned memory.
//!
//! The storage is mapped, pre-faulted and locked in memory when the buffer is
//! made, so that recording a sample inside a timed region never allocates or
//! takes a page fault. The buffer never grows: a push onto a full buffer fails
//! and leaves it as it was.

use bmk_linux::resultarray::ResultArray;
use vstd::prelude::*;

verus! {

#[verifier::external_type_specification]
#[verifier::external_body]
#[verifier::reject_recursive_types(T)]
pub struct ExResultArray<T: Sized>(ResultArray<T>);

/// What a pinned result array holds, oldest first.
pub uninterp spec fn result_array_items(a: ResultArray<u64>) -> Seq<u64>;

/// The number of elements that a pinned result array was made for.
pub uninterp spec fn result_array_capacity(a: ResultArray<u64>) -> nat;

/// Bytes in a page of memory.
pub const PAGE_BYTES: usize = 4096;

/// Bytes in one sample.
pub const SAMPLE_BYTES: usize = 8;

/// Relies on `ResultArray::new`: a mapped and locked array for `cap` elements,
/// holding none yet. It panics unless the byte size `cap * 8` is a non-zero
/// multiple of the page size below `isize::MAX` (a size of zero cannot be
/// mapped), and when the kernel refuses the mapping or the lock.
#[verifier::external_body]
fn result_array_new(cap: usize) -> (r: ResultArray<u64>)
    requires
        cap > 0,
        (cap * SAMPLE_BYTES) % (PAGE_BYTES as int) == 0,
        cap * SAMPLE_BYTES < isize::MAX,
    ensures
        result_array_items(r) == Seq::<u64>::empty(),
        result_array_capacity(r) == cap,
{
    ResultArray::new(cap)
}

/// Relies on `ResultArray::push`: `x` is written after the held elements. It
/// panics when the array is full.
#[verifier::external_body]
fn result_array_push(a: &mut ResultArray<u64>, x: u64)
    requires
        result_array_items(*old(a)).len() < result_array_capacity(*old(a)),
    ensures
        result_array_items(*final(a)) == result_array_items(*old(a)).push(x),
        result_array_capacity(*final(a)) == result_array_capacity(*old(a)),
{
    a.push(x)
}

/// Relies on `ResultArray::iter`: it walks the held elements in order, and
/// reads the `i`-th of them.
#[verifier::external_body]
fn result_array_get(a: &ResultArray<u64>, i: usize) -> (r: u64)
    requires
        i < result_array_items(*a).len(),
    ensures
        r == result_array_items(*a)[i as int],
{
    a.iter().as_slice()[i]
}

/// Why a sample buffer could not be made, or could not take a sample.
#[derive(Clone, Copy, Debug, PartialEq, Eq)]
pub enum BufferError {
    /// A buffer for no samples was asked for.
    ZeroCapacity,
    /// The buffer's byte size would not be a whole number of pages.
    NotPageMultiple,
    /// The buffer's byte size would not stay below `isize::MAX`.
    TooLarge,
    /// The buffer already holds as many samples as it was made for.
    Full,
}

/// Whether a buffer of `capacity` samples fills whole pages.
pub open spec fn fills_whole_pages(capacity: int) -> bool {
    (capacity * SAMPLE_BYTES) % (PAGE_BYTES as int) == 0
}

/// What `SampleBuffer::new` answers for `capacity`: the first error that
/// applies, checked in this order, or none.
pub open spec fn capacity_error(capacity: int) -> Option<BufferError> {
    if capacity == 0 {
        Some(BufferError::ZeroCapacity)
    } else if !fills_whole_pages(capacity) {
        Some(BufferError::NotPageMultiple)
    } else if capacity * SAMPLE_BYTES >= isize::MAX {
        Some(BufferError::TooLarge)
    } else {
        None
    }
}

/// The samples after one push of `x` onto `items` in a buffer of `capacity`:
/// appended when there is room, else unchanged.
pub open spec fn after_push(items: Seq<u64>, capacity: int, x: u64) -> Seq<u64> {
    if items.len() < capacity {
        items.push(x)
    } else {
        items
    }
}

/// The samples after pushing each of `xs` in turn onto `items`.
pub open spec fn after_pushes(items: Seq<u64>, capacity: int, xs: Seq<u64>) -> Seq<u64>
    decreases xs.len(),
{
    if xs.len() == 0 {
        items
    } else {
        after_push(after_pushes(items, capacity, xs.drop_last()), capacity, xs.last())
    }
}

/// Every positive capacity whose byte size is a whole number of pages (that
/// is, a multiple of 4096 / 8 = 512 samples), and stays below `isize::MAX`, is
/// accepted: `SampleBuffer::new` then succeeds with an empty buffer.
pub proof fn lemma_page_multiples_accepted(capacity: int)
    requires
        capacity > 0,
        capacity % (PAGE_BYTES / SAMPLE_BYTES) as int == 0,
        capacity * SAMPLE_BYTES < isize::MAX,
    ensures
        capacity_error(capacity) is None,
{
    assert((capacity * 8) % 4096 == 0) by (nonlinear_arith)
        requires
            capacity % 512 == 0,
    ;
}

/// Pushing at most `capacity` samples onto an empty buffer leaves exactly
/// those samples in it, in the order pushed; a push onto a full buffer leaves
/// it unchanged.
pub proof fn lemma_pushes_kept_in_order(capacity: int, xs: Seq<u64>, full: Seq<u64>, x: u64)
    requires
        xs.len() <= capacity,
        full.len() == capacity,
    ensures
        after_pushes(Seq::empty(), capacity, xs) == xs,
        after_push(full, capacity, x) == full,
    decreases xs.len(),
{
    if xs.len() > 0 {
        lemma_pushes_kept_in_order(capacity, xs.drop_last(), full, x);
        assert(xs.drop_last().push(xs.last()) =~= xs);
    }
}

/// A pinned buffer of at most `capacity()` samples.
pub struct SampleBuffer {
    array: ResultArray<u64>,
    len: usize,
    capacity: usize,
}

impl View for SampleBuffer {
    type V = Seq<u64>;

    /// The samples held, in the order in which they were pushed.
    closed spec fn view(&self) -> Seq<u64> {
        result_array_items(self.array)
    }
}

impl SampleBuffer {
    /// The number of samples that the buffer was made for.
    pub closed spec fn spec_capacity(&self) -> nat {
        self.capacity as nat
    }

    /// The buffer holds no more than it was made for.
    pub closed spec fn wf(&self) -> bool {
        &&& result_array_capacity(self.array) == self.capacity
        &&& result_array_items(self.array).len() == self.len
        &&& self.len <= self.capacity
    }

    /// A buffer for `capacity` samples, mapped and locked now. Fails when
    /// `capacity` is zero, when `capacity * 8` bytes are not a whole number of
    /// 4096-byte pages, or when they do not stay below `isize::MAX`.
    pub fn new(capacity: usize) -> (r: Result<SampleBuffer, BufferError>)
        ensures
            match r {
                Ok(b) => capacity_error(capacity as int) is None && b.wf() && b@.len() == 0
                    && b.spec_capacity() == capacity,
                Err(e) => capacity_error(capacity as int) == Some(e),
            },
    {
        if capacity == 0 {
            return Err(BufferError::ZeroCapacity);
        }
        let bytes: u128 = (capacity as u128) * (SAMPLE_BYTES as u128);
        if bytes % (PAGE_BYTES as u128) != 0 {
            return Err(BufferError::NotPageMultiple);
        }
        if bytes >= isize::MAX as u128 {
            return Err(BufferError::TooLarge);
        }
        let array = result_array_new(capacity);
        Ok(SampleBuffer { array, len: 0, capacity })
    }

    /// Appends `x` when there is room. On a full buffer it fails with
    /// `BufferError::Full` and leaves the buffer as it was.
    pub fn push(&mut self, x: u64) -> (r: Result<(), BufferError>)
        requires
            old(self).wf(),
        ensures
            final(self).wf(),
            final(self).spec_capacity() == old(self).spec_capacity(),
            final(self)@ == after_push(old(self)@, old(self).spec_capacity() as int, x),
            r is Err <==> old(self)@.len() == old(self).spec_capacity(),
            r is Err ==> r == Err::<(), BufferError>(BufferError::Full) && *final(self) == *old(
                self,
            ),
    {
        if self.len == self.capacity {
            return Err(BufferError::Full);
        }
        result_array_push(&mut self.array, x);
        self.len = self.len + 1;
        Ok(())
    }

    /// The number of samples held.
    pub fn len(&self) -> (r: usize)
        requires
            self.wf(),
        ensures
            r == self@.len(),
    {
        self.len
    }

    /// Whether the buffer holds no sample.
    pub fn is_empty(&self) -> (r: bool)
        requires
            self.wf(),
        ensures
            r == (self@.len() == 0),
    {
        self.len == 0
    }

    /// The number of samples that the buffer was made for.
    pub fn capacity(&self) -> (r: usize)
        ensures
            r == self.spec_capacity(),
    {
        self.capacity
    }

    /// The `i`-th sample pushed, counting from zero.
    pub fn get(&self, i: usize) -> (r: u64)
        requires
            self.wf(),
            i < self@.len(),
        ensures
            r == self@[i as int],
    {
        result_array_get(&self.array, i)
    }

    /// The samples held, in the order in which they were pushed.
    pub fn to_vec(&self) -> (r: Vec<u64>)
        requires
            self.wf(),
        ensures
            r@ == self@,
    {
        let mut out: Vec<u64> = Vec::with_capacity(self.len);
        let mut i: usize = 0;
        while i < self.len
            invariant
                self.wf(),
                i <= self.len,
                out@ == self@.subrange(0, i as int),
            decreases self.len - i,
        {
            out.push(self.get(i));
            i = i + 1;
        }
        assert(out@ =~= self@);
        out
    }
}

} // verus!
