//! A fixed set of reusable slots that bounds how many transfers run at once.

use vstd::prelude::*;

verus! {

/// The slots below `capacity`.
pub open spec fn all_slots(capacity: nat) -> Set<usize> {
    Set::new(|slot: usize| slot < capacity)
}

/// There are `capacity` slots below `capacity`.
pub proof fn lemma_all_slots(capacity: nat)
    requires
        capacity <= usize::MAX + 1,
    ensures
        all_slots(capacity).finite(),
        all_slots(capacity).len() == capacity,
    decreases capacity,
{
    if capacity == 0 {
        assert(all_slots(0) =~= Set::<usize>::empty());
    } else {
        let below = (capacity - 1) as nat;
        lemma_all_slots(below);
        assert(all_slots(capacity) =~= all_slots(below).insert(below as usize));
    }
}

/// Slots that are free: each below the capacity, none twice.
pub open spec fn free_list(free: Seq<usize>, capacity: nat) -> bool {
    &&& free.no_duplicates()
    &&& forall|i: int| 0 <= i < free.len() ==> #[trigger] free[i] < capacity
}

/// A free list never holds more slots than there are, and fewer where a
/// slot is missing from it.
pub proof fn lemma_free_list_bound(free: Seq<usize>, capacity: nat)
    requires
        capacity <= usize::MAX + 1,
        free_list(free, capacity),
    ensures
        free.len() <= capacity,
        (exists|slot: usize| slot < capacity && !free.contains(slot)) ==> free.len() < capacity,
        (forall|slot: usize| slot < capacity ==> free.contains(slot)) ==> free.len() == capacity,
{
    lemma_all_slots(capacity);
    free.unique_seq_to_set();
    let held = free.to_set();
    assert(held.subset_of(all_slots(capacity)));
    vstd::set_lib::lemma_len_subset(held, all_slots(capacity));
    if exists|slot: usize| slot < capacity && !free.contains(slot) {
        let missing = choose|slot: usize| slot < capacity && !free.contains(slot);
        let others = all_slots(capacity).remove(missing);
        assert(held.subset_of(others));
        vstd::set_lib::lemma_len_subset(held, others);
    }
    if forall|slot: usize| slot < capacity ==> free.contains(slot) {
        assert(held =~= all_slots(capacity));
    }
}

/// A pool of `capacity` slots, numbered from zero. A slot is either free or
/// checked out; free slots are handed out in the order they came back.
#[derive(Debug)]
pub struct SlotPool {
    capacity: usize,
    free: Vec<usize>,
}

impl SlotPool {
    #[verifier::type_invariant]
    spec fn valid(&self) -> bool {
        free_list(self.free@, self.capacity as nat)
    }

    pub closed spec fn capacity(&self) -> nat {
        self.capacity as nat
    }

    /// The free slots, the next to be handed out first.
    pub closed spec fn free(&self) -> Seq<usize> {
        self.free@
    }

    /// What always holds of a pool: its free slots are slots of the pool,
    /// none of them twice.
    pub open spec fn wf(&self) -> bool {
        free_list(self.free(), self.capacity())
    }

    /// Whether `slot` is checked out.
    pub open spec fn is_out(&self, slot: usize) -> bool {
        slot < self.capacity() && !self.free().contains(slot)
    }

    /// How many slots are checked out.
    pub open spec fn outstanding(&self) -> int {
        self.capacity() - self.free().len()
    }

    /// A pool with all of its `capacity` slots free, slot 0 first.
    pub fn new(capacity: usize) -> (pool: SlotPool)
        ensures
            pool.capacity() == capacity,
            pool.free() == Seq::new(capacity as nat, |i: int| i as usize),
            pool.outstanding() == 0,
            pool.wf(),
    {
        let mut free: Vec<usize> = Vec::new();
        let mut i: usize = 0;
        while i < capacity
            invariant
                i <= capacity,
                free@ == Seq::new(i as nat, |k: int| k as usize),
            decreases capacity - i,
        {
            free.push(i);
            i += 1;
            assert(free@ =~= Seq::new(i as nat, |k: int| k as usize));
        }
        SlotPool { capacity, free }
    }

    /// The number of slots, free or not.
    pub fn size(&self) -> (n: usize)
        ensures
            n == self.capacity(),
    {
        self.capacity
    }

    /// The number of slots checked out. It never exceeds the capacity.
    pub fn checked_out(&self) -> (n: usize)
        ensures
            n == self.outstanding(),
            0 <= self.outstanding() <= self.capacity(),
            self.wf(),
    {
        proof {
            use_type_invariant(self);
            lemma_free_list_bound(self.free@, self.capacity as nat);
        }
        self.capacity - self.free.len()
    }

    /// Whether every slot is back in the pool.
    pub fn is_idle(&self) -> (idle: bool)
        ensures
            idle == (self.outstanding() == 0),
            idle == (forall|slot: usize| !#[trigger] self.is_out(slot)),
    {
        proof {
            use_type_invariant(self);
            lemma_free_list_bound(self.free@, self.capacity as nat);
            if self.free@.len() < self.capacity {
                if forall|slot: usize| !self.is_out(slot) {
                    assert forall|slot: usize| slot < self.capacity implies self.free@.contains(
                        slot,
                    ) by {
                        assert(!self.is_out(slot));
                    }
                }
            }
        }
        self.free.len() == self.capacity
    }

    /// Checks out the free slot that has waited longest; `None`, and no
    /// change, when every slot is checked out.
    pub fn acquire(&mut self) -> (slot: Option<usize>)
        ensures
            final(self).capacity() == old(self).capacity(),
            match slot {
                Some(s) => {
                    &&& old(self).free().len() > 0
                    &&& s == old(self).free()[0]
                    &&& final(self).free() == old(self).free().drop_first()
                    &&& !old(self).is_out(s)
                    &&& final(self).is_out(s)
                    &&& final(self).outstanding() == old(self).outstanding() + 1
                },
                None => old(self).free().len() == 0 && *final(self) == *old(self),
            },
            0 <= final(self).outstanding() <= final(self).capacity(),
            final(self).wf(),
    {
        proof {
            use_type_invariant(&*self);
            lemma_free_list_bound(self.free@, self.capacity as nat);
        }
        if self.free.len() == 0 {
            None
        } else {
            let ghost before = self.free@;
            let mut taken = SlotPool { capacity: 0, free: Vec::new() };
            std::mem::swap(self, &mut taken);
            let SlotPool { capacity, free } = taken;
            let mut free = free;
            let slot = free.remove(0);
            proof {
                assert(free@ =~= before.drop_first());
                assert(before[0] == slot);
                assert forall|i: int, j: int|
                    0 <= i < free@.len() && 0 <= j < free@.len() && i != j implies free@[i]
                    != free@[j] by {
                    assert(free@[i] == before[i + 1]);
                    assert(free@[j] == before[j + 1]);
                }
                assert forall|i: int| 0 <= i < free@.len() implies #[trigger] free@[i]
                    < capacity by {
                    assert(free@[i] == before[i + 1]);
                }
                if free@.contains(slot) {
                    let k = choose|k: int| 0 <= k < free@.len() && free@[k] == slot;
                    assert(before[k + 1] == before[0]);
                }
            }
            *self = SlotPool { capacity, free };
            Some(slot)
        }
    }

    /// Returns a slot to the pool, behind the free ones. Only a slot that is
    /// checked out can come back: for any other the pool stays as it is and
    /// the answer is `false`, so no slot is ever free twice.
    pub fn release(&mut self, slot: usize) -> (accepted: bool)
        ensures
            final(self).capacity() == old(self).capacity(),
            accepted == old(self).is_out(slot),
            accepted ==> {
                &&& final(self).free() == old(self).free().push(slot)
                &&& !final(self).is_out(slot)
                &&& final(self).outstanding() == old(self).outstanding() - 1
            },
            !accepted ==> *final(self) == *old(self),
            0 <= final(self).outstanding() <= final(self).capacity(),
            final(self).wf(),
    {
        proof {
            use_type_invariant(&*self);
            lemma_free_list_bound(self.free@, self.capacity as nat);
        }
        if slot >= self.capacity {
            return false;
        }
        let mut i: usize = 0;
        while i < self.free.len()
            invariant
                i <= self.free.len(),
                *self == *old(self),
                self.free@.len() <= self.capacity,
                self.wf(),
                forall|k: int| 0 <= k < i ==> self.free@[k] != slot,
            decreases self.free.len() - i,
        {
            if self.free[i] == slot {
                return false;
            }
            i += 1;
        }
        let ghost before = self.free@;
        assert(!before.contains(slot));
        let mut taken = SlotPool { capacity: 0, free: Vec::new() };
        std::mem::swap(self, &mut taken);
        let SlotPool { capacity, free } = taken;
        let mut free = free;
        free.push(slot);
        proof {
            assert(free@ =~= before.push(slot));
            assert forall|i: int, j: int|
                0 <= i < free@.len() && 0 <= j < free@.len() && i != j implies free@[i]
                != free@[j] by {
                if i < before.len() {
                    assert(before.contains(before[i]));
                }
                if j < before.len() {
                    assert(before.contains(before[j]));
                }
            }
            assert(free@.last() == slot);
            assert(free@.contains(slot));
            lemma_free_list_bound(free@, capacity as nat);
        }
        *self = SlotPool { capacity, free };
        true
    }
}

/// No more slots are ever checked out than the pool has, however many
/// tasks ran through it.
pub proof fn law_outstanding_is_bounded(pool: SlotPool)
    requires
        pool.wf(),
    ensures
        0 <= pool.outstanding() <= pool.capacity(),
{
    lemma_free_list_bound(pool.free(), pool.capacity());
}

/// Once every task has given its slot back, so that no slot is checked
/// out, all the slots of the pool are free again.
pub proof fn law_all_slots_return(pool: SlotPool)
    requires
        pool.wf(),
        forall|slot: usize| !#[trigger] pool.is_out(slot),
    ensures
        pool.outstanding() == 0,
        pool.free().len() == pool.capacity(),
        forall|slot: usize| slot < pool.capacity() ==> pool.free().contains(slot),
{
    assert forall|slot: usize| slot < pool.capacity() implies pool.free().contains(slot) by {
        assert(!pool.is_out(slot));
    }
    lemma_free_list_bound(pool.free(), pool.capacity());
}

/// Checking a slot out and giving it back leaves as many slots checked out
/// as before: a task that releases the slot it acquired, whatever became of
/// it, takes nothing from the pool.
pub proof fn law_release_undoes_acquire(free: Seq<usize>, capacity: nat)
    requires
        free_list(free, capacity),
        free.len() > 0,
    ensures
        free_list(free.drop_first(), capacity),
        !free.drop_first().contains(free[0]),
        free_list(free.drop_first().push(free[0]), capacity),
        free.drop_first().push(free[0]).len() == free.len(),
{
    let rest = free.drop_first();
    assert forall|i: int, j: int| 0 <= i < rest.len() && 0 <= j < rest.len() && i != j implies rest[i]
        != rest[j] by {
        assert(rest[i] == free[i + 1]);
        assert(rest[j] == free[j + 1]);
    }
    assert forall|i: int| 0 <= i < rest.len() implies #[trigger] rest[i] < capacity by {
        assert(rest[i] == free[i + 1]);
    }
    if rest.contains(free[0]) {
        let k = choose|k: int| 0 <= k < rest.len() && rest[k] == free[0];
        assert(free[k + 1] == free[0]);
    }
    let back = rest.push(free[0]);
    assert forall|i: int, j: int| 0 <= i < back.len() && 0 <= j < back.len() && i != j implies back[i]
        != back[j] by {
        if i < rest.len() {
            assert(rest.contains(rest[i]));
        }
        if j < rest.len() {
            assert(rest.contains(rest[j]));
        }
    }
}

} // verus!
