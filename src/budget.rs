use vstd::prelude::*;

verus! {

/// Ceiling on live bullets: how many more may be granted before the next
/// recount.
#[derive(Clone, Copy, Debug, PartialEq, Eq, Structural)]
pub struct SpawnBudget {
    pub capacity: usize,
    pub available: usize,
}

impl SpawnBudget {
    pub open spec fn wf(self) -> bool {
        self.available <= self.capacity
    }
}

/// Free slots left when `live` bullets exist.
pub open spec fn free_slots(capacity: int, live: int) -> int {
    if live >= capacity {
        0
    } else {
        capacity - live
    }
}

/// The budget after one spawn request: a slot is used if one is free.
pub open spec fn after_request(b: SpawnBudget) -> SpawnBudget {
    if b.available > 0 {
        SpawnBudget { available: (b.available - 1) as usize, ..b }
    } else {
        b
    }
}

/// How many of `k` spawn requests in a row are granted.
pub open spec fn grants(b: SpawnBudget, k: nat) -> nat
    decreases k,
{
    if k == 0 {
        0
    } else {
        (if b.available > 0 {
            1nat
        } else {
            0nat
        }) + grants(after_request(b), (k - 1) as nat)
    }
}

impl SpawnBudget {
    /// A budget with every slot free.
    pub fn new(capacity: usize) -> (r: SpawnBudget)
        ensures
            r.wf(),
            r.capacity == capacity,
            r.available == capacity,
    {
        SpawnBudget { capacity, available: capacity }
    }

    /// Recounts the free slots for `live` live bullets.
    pub fn recompute(&mut self, live: usize)
        ensures
            final(self).wf(),
            final(self).capacity == old(self).capacity,
            final(self).available == free_slots(old(self).capacity as int, live as int),
    {
        self.available = if live >= self.capacity {
            0
        } else {
            self.capacity - live
        };
    }

    /// Asks for one slot; true when it was granted.
    pub fn request_spawn(&mut self) -> (r: bool)
        ensures
            r == (old(self).available > 0),
            *final(self) == after_request(*old(self)),
    {
        if self.available > 0 {
            self.available = self.available - 1;
            true
        } else {
            false
        }
    }
}

/// Requests beyond the free slots are dropped: of `k` requests in a row
/// exactly as many are granted as there were free slots, or `k` if fewer.
pub proof fn lemma_grants_bounded_by_slots(b: SpawnBudget, k: nat)
    ensures
        grants(b, k) == if k < b.available {
            k as int
        } else {
            b.available as int
        },
    decreases k,
{
    if k > 0 {
        lemma_grants_bounded_by_slots(after_request(b), (k - 1) as nat);
    }
}

} // verus!
