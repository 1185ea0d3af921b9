use vstd::prelude::*;

verus! {

/// Smallest capacity a buffer is ever allocated with (bytes for scene
/// buffers, points for the query buffers).
pub const MIN_CAPACITY: usize = 1024;

/// Size of a freshly allocated buffer that must hold `required` units:
/// twice the requirement, with a floor of `MIN_CAPACITY`.
pub open spec fn allocation_size(required: nat) -> nat {
    if 2 * required >= MIN_CAPACITY as nat {
        2 * required
    } else {
        MIN_CAPACITY as nat
    }
}

/// The capacity a buffer of capacity `current` has after a request for
/// `required` units: unchanged when it is enough, otherwise a fresh
/// allocation sized by `allocation_size`.
pub open spec fn grown_capacity_spec(current: nat, required: nat) -> nat {
    if required <= current {
        current
    } else {
        allocation_size(required)
    }
}

/// Executable form of `allocation_size`.
pub fn fresh_capacity(required: usize) -> (r: usize)
    requires
        required <= usize::MAX / 2,
    ensures
        r as nat == allocation_size(required as nat),
{
    let doubled = required * 2;
    if doubled >= MIN_CAPACITY {
        doubled
    } else {
        MIN_CAPACITY
    }
}

/// Executable form of the growth policy.
pub fn grown_capacity(current: usize, required: usize) -> (r: usize)
    requires
        required <= usize::MAX / 2,
    ensures
        r as nat == grown_capacity_spec(current as nat, required as nat),
{
    if required <= current {
        current
    } else {
        fresh_capacity(required)
    }
}

/// CPU-side record of one growable GPU buffer: whether a GPU buffer has been
/// allocated yet, and its capacity. The GPU handle itself lives with the
/// caller, which recreates it whenever `ensure_capacity` asks for it.
pub struct GrowableBuffer {
    pub allocated: bool,
    pub capacity: usize,
}

/// The buffer record after a request for `required` units: kept when it is
/// allocated and large enough, otherwise allocated afresh.
pub open spec fn ensure_spec(b: GrowableBuffer, required: nat) -> GrowableBuffer {
    if b.allocated && required <= b.capacity {
        b
    } else {
        GrowableBuffer { allocated: true, capacity: allocation_size(required) as usize }
    }
}

impl GrowableBuffer {
    /// Well-formed: an allocated buffer is never below the floor, and an
    /// unallocated one has no capacity.
    pub open spec fn wf(&self) -> bool {
        if self.allocated {
            self.capacity >= MIN_CAPACITY
        } else {
            self.capacity == 0
        }
    }

    /// A buffer that has not been allocated yet.
    pub fn new() -> (r: GrowableBuffer)
        ensures
            r.wf(),
            !r.allocated,
            r.capacity == 0,
    {
        GrowableBuffer { allocated: false, capacity: 0 }
    }

    /// A buffer allocated up front with the given capacity (at least the floor).
    pub fn with_capacity(capacity: usize) -> (r: GrowableBuffer)
        ensures
            r.wf(),
            r.allocated,
            r.capacity == if capacity >= MIN_CAPACITY { capacity } else { MIN_CAPACITY },
    {
        let c = if capacity >= MIN_CAPACITY { capacity } else { MIN_CAPACITY };
        GrowableBuffer { allocated: true, capacity: c }
    }

    /// Makes room for `required` units. Returns the size of the new GPU
    /// buffer to create when the buffer was missing or too small, and `None`
    /// when the current one is kept. Capacity never shrinks.
    pub fn ensure_capacity(&mut self, required: usize) -> (r: Option<usize>)
        requires
            old(self).wf(),
            required <= usize::MAX / 2,
        ensures
            *final(self) == ensure_spec(*old(self), required as nat),
            final(self).wf(),
            final(self).allocated,
            (old(self).allocated && required <= old(self).capacity) ==> (
                r is None && *final(self) == *old(self)
            ),
            !(old(self).allocated && required <= old(self).capacity) ==> (
                r == Some(final(self).capacity)
                && final(self).capacity as nat == allocation_size(required as nat)
            ),
            final(self).capacity >= old(self).capacity,
            final(self).capacity >= required,
    {
        if self.allocated && required <= self.capacity {
            None
        } else {
            // Either there is no buffer yet or it is too small: both
            // allocate afresh.
            let c = fresh_capacity(required);
            self.allocated = true;
            self.capacity = c;
            Some(c)
        }
    }
}

/// Growth never shrinks a buffer and always makes room: after a request the
/// buffer is allocated, holds at least what was asked for and at least what
/// it held before; when it had to grow, it holds exactly twice the request
/// (or the floor), and asking again for the same or less changes nothing.
pub proof fn lemma_growth_monotone(b: GrowableBuffer, c1: nat, c2: nat)
    requires
        b.wf(),
        c1 <= usize::MAX / 2,
        c2 <= usize::MAX / 2,
    ensures
        ensure_spec(b, c1).wf(),
        ensure_spec(b, c1).capacity >= b.capacity,
        ensure_spec(b, c1).capacity >= c1,
        ensure_spec(ensure_spec(b, c1), c1) == ensure_spec(b, c1),
        c2 <= c1 ==> ensure_spec(ensure_spec(b, c1), c2) == ensure_spec(b, c1),
        c2 > ensure_spec(b, c1).capacity ==> {
            let after = ensure_spec(ensure_spec(b, c1), c2).capacity as nat;
            &&& after == allocation_size(c2)
            &&& after >= 2 * c2
            &&& after >= MIN_CAPACITY
            &&& after > ensure_spec(b, c1).capacity
        },
        ensure_spec(ensure_spec(b, c1), c2).capacity >= 2 * c2
            || ensure_spec(ensure_spec(b, c1), c2) == ensure_spec(b, c1),
{
}

} // verus!
