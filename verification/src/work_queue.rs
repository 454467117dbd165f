//! Bounded work history: a fixed-capacity FIFO of closed candidate blocks
//! with a "last used" marker and lookup by block hash.

use vstd::prelude::*;
use crate::block::{ClosedBlock, ClosedBlockV};

verus! {

/// What a matching lookup does with the entry it found.
#[derive(Clone, Copy, Debug, PartialEq, Eq, Structural)]
pub enum GetAction {
    /// Remove the entry; a candidate can be used only once.
    Take,
    /// Leave the entry in place; a candidate may be used again.
    Clone,
}

/// What a bounded push yields: the appended sequence, with the oldest
/// entry evicted when the capacity is exceeded.
pub open spec fn push_evict(q: Seq<ClosedBlockV>, b: ClosedBlockV, cap: int) -> Seq<ClosedBlockV> {
    if cap == 0 {
        Seq::empty()
    } else if q.len() < cap {
        q.push(b)
    } else {
        q.skip(1).push(b)
    }
}

/// Position of the newest candidate with block hash `h`, or -1 when no
/// candidate has it.
pub open spec fn find_newest_with_hash(q: Seq<ClosedBlockV>, h: u64) -> int
    decreases q.len(),
{
    if q.len() == 0 {
        -1
    } else if q.last().header.hash == h {
        q.len() - 1
    } else {
        find_newest_with_hash(q.drop_last(), h)
    }
}

/// The defining properties of `find_newest_with_hash`: it is in range, it
/// marks a match, nothing newer matches, and -1 means nothing matches.
pub proof fn lemma_find_newest_props(q: Seq<ClosedBlockV>, h: u64)
    ensures
        ({
            let i = find_newest_with_hash(q, h);
            &&& -1 <= i < q.len()
            &&& i >= 0 ==> q[i].header.hash == h
                && forall|j: int| i < j < q.len() ==> (#[trigger] q[j]).header.hash != h
            &&& i == -1 ==> forall|j: int| 0 <= j < q.len() ==> (#[trigger] q[j]).header.hash != h
        }),
    decreases q.len(),
{
    if q.len() > 0 && q.last().header.hash != h {
        lemma_find_newest_props(q.drop_last(), h);
        assert forall|j: int| 0 <= j < q.len() - 1
            implies #[trigger] q[j] == q.drop_last()[j]
        by {};
    }
}

/// Fixed-capacity FIFO of candidate blocks, oldest first.
#[derive(Debug)]
pub struct WorkQueue {
    blocks: Vec<ClosedBlock>,
    last_used: bool,
    capacity: usize,
}

impl WorkQueue {
    /// The stored candidates, oldest first.
    pub closed spec fn contents(self) -> Seq<ClosedBlockV> {
        self.blocks@.map_values(|b: ClosedBlock| b@)
    }

    /// Whether a consumer has requested stored work.
    pub closed spec fn in_use(self) -> bool {
        self.last_used
    }

    /// The capacity the queue was created with.
    pub closed spec fn cap(self) -> int {
        self.capacity as int
    }

    /// The history never outgrows its capacity and holds only consistent
    /// candidates.
    pub closed spec fn wf(self) -> bool {
        &&& self.blocks@.len() <= self.capacity
        &&& forall|i: int| 0 <= i < self.blocks@.len() ==> #[trigger] self.blocks@[i].wf()
    }

    /// An empty history of the given capacity.
    pub fn new(capacity: usize) -> (r: WorkQueue)
        ensures
            r.wf(),
            r.contents() == Seq::<ClosedBlockV>::empty(),
            !r.in_use(),
            r.cap() == capacity,
    {
        let r = WorkQueue { blocks: Vec::new(), last_used: false, capacity };
        proof {
            assert(r.contents() =~= Seq::<ClosedBlockV>::empty());
        }
        r
    }

    /// How many candidates are stored.
    pub fn len(&self) -> (r: usize)
        ensures
            r == self.contents().len(),
    {
        self.blocks.len()
    }

    /// Appends a candidate, evicting the oldest entry when the history is
    /// full, and clears the "last used" marker. The stored count never
    /// exceeds the capacity.
    pub fn push(&mut self, b: ClosedBlock)
        requires
            old(self).wf(),
            b.wf(),
        ensures
            final(self).wf(),
            !final(self).in_use(),
            final(self).cap() == old(self).cap(),
            final(self).contents().len() <= final(self).cap(),
            final(self).contents() == push_evict(old(self).contents(), b@, old(self).cap()),
    {
        let ghost oldq = *old(self);
        self.blocks.push(b);
        self.last_used = false;
        proof {
            assert(self.contents() =~= oldq.contents().push(b@));
        }
        if self.blocks.len() > self.capacity {
            let ghost before = *self;
            let _evicted = self.blocks.remove(0);
            proof {
                assert(self.contents() =~= before.contents().skip(1));
                if oldq.cap() == 0 {
                    assert(self.contents() =~= Seq::<ClosedBlockV>::empty());
                } else {
                    assert(oldq.contents().len() == oldq.cap());
                    assert(self.contents() =~= oldq.contents().skip(1).push(b@));
                }
            }
        }
    }

    /// Borrows the newest candidate, if any.
    pub fn peek_last(&self) -> (r: Option<&ClosedBlock>)
        requires
            self.wf(),
        ensures
            match r {
                Some(b) => self.contents().len() > 0 && b@ == self.contents().last() && b.wf(),
                None => self.contents().len() == 0,
            },
    {
        if self.blocks.len() == 0 {
            None
        } else {
            Some(&self.blocks[self.blocks.len() - 1])
        }
    }

    /// If the newest candidate was built atop `parent_hash`, removes and
    /// returns it (the marker is cleared with it); otherwise leaves the
    /// history untouched.
    pub fn pop_if_parent(&mut self, parent_hash: u64) -> (r: Option<ClosedBlock>)
        requires
            old(self).wf(),
        ensures
            final(self).wf(),
            final(self).cap() == old(self).cap(),
            match r {
                Some(b) => {
                    &&& old(self).contents().len() > 0
                    &&& old(self).contents().last().header.parent_hash == parent_hash
                    &&& b@ == old(self).contents().last()
                    &&& b.wf()
                    &&& final(self).contents() == old(self).contents().drop_last()
                    &&& !final(self).in_use()
                },
                None => {
                    &&& *final(self) == *old(self)
                    &&& (old(self).contents().len() > 0
                        ==> old(self).contents().last().header.parent_hash != parent_hash)
                },
            },
    {
        if self.blocks.len() == 0 {
            return None;
        }
        if self.blocks[self.blocks.len() - 1].header.parent_hash != parent_hash {
            return None;
        }
        let ghost before = *self;
        let b = self.blocks.pop().unwrap();
        self.last_used = false;
        proof {
            assert(self.contents() =~= before.contents().drop_last());
        }
        Some(b)
    }

    /// Scans from newest to oldest for a candidate with the given block
    /// hash, landing on `find_newest_with_hash`. On a match the marker is
    /// set; `Clone` leaves the entry in place, `Take` removes it.
    pub fn find_by_hash(&mut self, hash: u64, action: GetAction) -> (r: Option<ClosedBlock>)
        requires
            old(self).wf(),
        ensures
            final(self).wf(),
            final(self).cap() == old(self).cap(),
            ({
                let i = find_newest_with_hash(old(self).contents(), hash);
                match r {
                    Some(b) => {
                        &&& i >= 0
                        &&& b.wf()
                        &&& b@.header.hash == hash
                        &&& final(self).in_use()
                        &&& b@ == old(self).contents()[i]
                        &&& final(self).contents() == if action == GetAction::Clone {
                            old(self).contents()
                        } else {
                            old(self).contents().remove(i)
                        }
                    },
                    None => {
                        &&& i == -1
                        &&& *final(self) == *old(self)
                    },
                }
            }),
    {
        let ghost oldq = *old(self);
        let mut j: usize = self.blocks.len();
        proof {
            assert(oldq.contents().take(j as int) =~= oldq.contents());
        }
        while j > 0
            invariant
                j <= self.blocks@.len(),
                oldq == *old(self),
                *self == oldq,
                self.wf(),
                forall|i: int| j <= i < self.blocks@.len()
                    ==> #[trigger] self.blocks@[i].header.hash != hash,
                find_newest_with_hash(oldq.contents(), hash)
                    == find_newest_with_hash(oldq.contents().take(j as int), hash),
            decreases j,
        {
            j = j - 1;
            proof {
                assert(oldq.contents().take(j as int + 1).drop_last()
                    =~= oldq.contents().take(j as int));
                assert(oldq.contents().take(j as int + 1).last()
                    == oldq.contents()[j as int]);
            }
            if self.blocks[j].header.hash == hash {
                match action {
                    GetAction::Clone => {
                        let b = self.blocks[j].duplicate();
                        self.last_used = true;
                        proof {
                            let orig = self.blocks@[j as int];
                            assert(orig.wf());
                            assert(b.receipts@ == orig.receipts@);
                            assert(b.transactions@ == orig.transactions@);
                            assert(b.header.gas_used == orig.header.gas_used);
                            assert(b.header.gas_limit == orig.header.gas_limit);
                            assert(b.wf());
                            assert(self.contents() =~= oldq.contents());
                            assert(b@ == oldq.contents()[j as int]);
                            assert(find_newest_with_hash(oldq.contents(), hash) == j as int);
                        }
                        return Some(b);
                    },
                    GetAction::Take => {
                        let b = self.blocks.remove(j);
                        self.last_used = true;
                        proof {
                            assert(self.contents() =~= oldq.contents().remove(j as int));
                            assert(b@ == oldq.contents()[j as int]);
                            assert(find_newest_with_hash(oldq.contents(), hash) == j as int);
                        }
                        return Some(b);
                    },
                }
            }
        }
        proof {
            assert(oldq.contents().take(0) =~= Seq::<ClosedBlockV>::empty());
        }
        None
    }

    /// Marks the stored work as requested; a no-op on an empty history.
    pub fn use_last(&mut self)
        requires
            old(self).wf(),
        ensures
            final(self).wf(),
            final(self).contents() == old(self).contents(),
            final(self).cap() == old(self).cap(),
            final(self).in_use() == (old(self).in_use() || old(self).contents().len() > 0),
    {
        if self.blocks.len() > 0 {
            self.last_used = true;
        }
    }

    /// Whether stored work has been requested.
    pub fn is_in_use(&self) -> (r: bool)
        ensures
            r == self.in_use(),
    {
        self.last_used
    }

    /// Drops every candidate and clears the marker.
    pub fn reset(&mut self)
        requires
            old(self).wf(),
        ensures
            final(self).wf(),
            final(self).contents() == Seq::<ClosedBlockV>::empty(),
            !final(self).in_use(),
            final(self).cap() == old(self).cap(),
    {
        self.blocks.clear();
        self.last_used = false;
        proof {
            assert(self.contents() =~= Seq::<ClosedBlockV>::empty());
        }
    }
}

/// Work-history bound: a well-formed history never holds more candidates
/// than its capacity. Every operation above preserves well-formedness, so
/// by induction the bound holds after any sequence of pushes.
pub proof fn lemma_work_history_bound(q: WorkQueue)
    requires
        q.wf(),
    ensures
        q.contents().len() <= q.cap(),
{
}

} // verus!
