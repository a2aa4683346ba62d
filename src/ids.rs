use vstd::prelude::*;

verus! {

/// Largest identifier the allocator will ever hand out.
pub const MAX_UNIT_ID: u64 = 0xffff_ffff_ffff_fffe;

/// How many identifiers are left once `next` is the next one to be issued.
pub open spec fn remaining_from(next: nat) -> nat {
    if next <= MAX_UNIT_ID + 1 {
        (MAX_UNIT_ID + 1 - next) as nat
    } else {
        0
    }
}

/// Issues unit identifiers in strictly increasing order, starting from 0.
///
/// The allocator is an explicit object rather than a process-wide counter, so
/// independent simulations (and tests) each own their own sequence. Exclusive
/// access through `&mut` is what makes concurrent issuing race-free.
pub struct IdAllocator {
    next: u64,
}

impl IdAllocator {
    /// The identifier the next call of `next_id` returns.
    pub closed spec fn next_spec(&self) -> nat {
        self.next as nat
    }

    /// How many identifiers can still be issued.
    pub open spec fn remaining_spec(&self) -> nat {
        remaining_from(self.next_spec())
    }

    /// Whether `id` has been handed out: exactly the identifiers below the
    /// next one.
    pub open spec fn issued(&self, id: nat) -> bool {
        id < self.next_spec()
    }

    pub fn new() -> (r: IdAllocator)
        ensures
            r.next_spec() == 0,
            forall|id: nat| !r.issued(id),
    {
        IdAllocator { next: 0 }
    }

    /// An allocator whose first identifier is `next`, for resuming a sequence.
    pub fn starting_at(next: u64) -> (r: IdAllocator)
        ensures
            r.next_spec() == next,
    {
        IdAllocator { next }
    }

    /// The identifier the next call of `next_id` returns.
    pub fn peek(&self) -> (r: u64)
        ensures
            r == self.next_spec(),
    {
        self.next
    }

    /// How many identifiers can still be issued before the sequence is exhausted.
    pub fn remaining(&self) -> (r: u64)
        ensures
            r == self.remaining_spec(),
    {
        if self.next <= MAX_UNIT_ID {
            MAX_UNIT_ID - self.next + 1
        } else {
            0
        }
    }

    /// Issues one identifier, or `None` once the sequence is exhausted; an
    /// identifier is never issued twice.
    pub fn next_id(&mut self) -> (r: Option<u64>)
        ensures
            old(self).next_spec() <= MAX_UNIT_ID ==> r == Some(old(self).next_spec() as u64)
                && final(self).next_spec() == old(self).next_spec() + 1,
            old(self).next_spec() > MAX_UNIT_ID ==> r.is_none() && *final(self) == *old(self),
            r matches Some(id) ==> {
                &&& !old(self).issued(id as nat)
                &&& forall|x: nat| #[trigger] old(self).issued(x) ==> x < id
                &&& forall|x: nat| #[trigger] final(self).issued(x) <==> (old(self).issued(x) || x == id)
            },
    {
        if self.next <= MAX_UNIT_ID {
            let id = self.next;
            self.next = self.next + 1;
            Some(id)
        } else {
            None
        }
    }
}

} // verus!
