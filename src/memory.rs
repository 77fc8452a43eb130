use vstd::prelude::*;

verus! {

/// The error of a fallible allocation that would push usage past the capacity.
#[derive(Clone, Copy, Debug, PartialEq, Eq, Structural)]
pub struct MemoryQuotaExceeded;

/// Usage after a forced allocation: the sum, held at `usize::MAX`.
pub open spec fn forced_usage(in_use: nat, bytes: nat) -> nat {
    if in_use + bytes > usize::MAX {
        usize::MAX as nat
    } else {
        in_use + bytes
    }
}

/// Whether a fallible allocation of `bytes` fits under `capacity`.
pub open spec fn try_alloc_fits(in_use: nat, capacity: nat, bytes: nat) -> bool {
    in_use + bytes <= capacity
}

/// Usage after releasing `bytes`: never below zero.
pub open spec fn released_usage(in_use: nat, bytes: nat) -> nat {
    if bytes >= in_use {
        0
    } else {
        (in_use - bytes) as nat
    }
}

/// A byte counter with a nominal bound, shared by the producers and the
/// consumer of buffered capture data.
///
/// Forced allocations always succeed and may carry usage past the bound;
/// fallible allocations succeed only while usage stays within it.
pub struct MemoryQuota {
    in_use: usize,
    capacity: usize,
}

impl MemoryQuota {
    pub closed spec fn spec_in_use(&self) -> nat {
        self.in_use as nat
    }

    pub closed spec fn spec_capacity(&self) -> nat {
        self.capacity as nat
    }

    pub fn new(capacity: usize) -> (r: MemoryQuota)
        ensures
            r.spec_in_use() == 0,
            r.spec_capacity() == capacity,
    {
        MemoryQuota { in_use: 0, capacity }
    }

    pub fn in_use(&self) -> (r: usize)
        ensures
            r == self.spec_in_use(),
    {
        self.in_use
    }

    pub fn capacity(&self) -> (r: usize)
        ensures
            r == self.spec_capacity(),
    {
        self.capacity
    }

    pub fn set_capacity(&mut self, capacity: usize)
        ensures
            final(self).spec_capacity() == capacity,
            final(self).spec_in_use() == old(self).spec_in_use(),
    {
        self.capacity = capacity;
    }

    /// Allocates `bytes` whatever the current usage; returns the new usage.
    pub fn alloc_force(&mut self, bytes: usize) -> (r: usize)
        ensures
            final(self).spec_in_use() == forced_usage(old(self).spec_in_use(), bytes as nat),
            final(self).spec_capacity() == old(self).spec_capacity(),
            r == final(self).spec_in_use(),
    {
        self.in_use = self.in_use.saturating_add(bytes);
        self.in_use
    }

    /// Allocates `bytes` only if usage stays within the capacity; returns the
    /// new usage, or leaves the counter as it was and fails.
    pub fn try_alloc(&mut self, bytes: usize) -> (r: Result<usize, MemoryQuotaExceeded>)
        ensures
            final(self).spec_capacity() == old(self).spec_capacity(),
            try_alloc_fits(old(self).spec_in_use(), old(self).spec_capacity(), bytes as nat)
                <==> r is Ok,
            match r {
                Ok(n) => {
                    &&& final(self).spec_in_use() == old(self).spec_in_use() + bytes
                    &&& n == final(self).spec_in_use()
                },
                Err(_) => *final(self) == *old(self),
            },
    {
        if self.in_use > self.capacity || bytes > self.capacity - self.in_use {
            return Err(MemoryQuotaExceeded);
        }
        self.in_use = self.in_use + bytes;
        Ok(self.in_use)
    }

    /// Releases `bytes`; usage never goes below zero.
    pub fn free(&mut self, bytes: usize)
        ensures
            final(self).spec_in_use() == released_usage(old(self).spec_in_use(), bytes as nat),
            final(self).spec_capacity() == old(self).spec_capacity(),
    {
        if bytes >= self.in_use {
            self.in_use = 0;
        } else {
            self.in_use = self.in_use - bytes;
        }
    }
}

/// Once usage has reached the capacity, no fallible allocation of a
/// non-zero size fits, while a forced allocation still counts all of its
/// bytes as long as the counter does not saturate.
pub proof fn lemma_full_quota_rejects_try_but_not_force(
    in_use: nat,
    capacity: nat,
    aux_bytes: nat,
    forced_bytes: nat,
)
    requires
        in_use == capacity,
        aux_bytes > 0,
        in_use + forced_bytes <= usize::MAX,
    ensures
        !try_alloc_fits(in_use, capacity, aux_bytes),
        forced_usage(in_use, forced_bytes) == in_use + forced_bytes,
{
}

} // verus!
