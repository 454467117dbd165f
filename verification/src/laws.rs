//! Laws of the sealing controller, proved from the contracts the
//! components state. The work-history bound itself stands beside the
//! queue, as `work_queue::lemma_work_history_bound`.

use vstd::prelude::*;
use crate::miner::{Miner, SealingWork, SEALING_TIMEOUT_IN_BLOCKS};
use crate::work_queue::{find_newest_with_hash, lemma_find_newest_props};
use crate::block::ClosedBlockV;
use crate::engine::seals_internally_spec;

verus! {

/// Reseal throttle. A successful pass of `requires_reseal` at instant
/// `t1` re-arms the throttle to `t1` plus the minimum period, as its
/// contract states, and a transaction-inspired trigger consults
/// `reseal_allowed` before resealing again: so between the two passes
/// more than the minimum period elapses. Internal and forced triggers
/// bypass `reseal_allowed` and are not bound by this.
pub proof fn lemma_reseal_throttle(s: SealingWork, t1: u64, min_period: u64, t2: u64)
    requires
        s.next_allowed_reseal == t1 + min_period,
        s.reseal_allowed_spec(t2),
    ensures
        t2 > t1,
        t2 - t1 > min_period,
{
}

/// Mandatory cadence. Internal sealing of an empty candidate without
/// forced sealing succeeds only past the mandatory deadline, and each
/// success moves that deadline a full maximum period onward (the internal
/// sealer's contract): so two such seals lie more than the maximum period
/// apart.
pub proof fn lemma_mandatory_cadence(
    first_deadline: u64,
    t1: u64,
    max_period: u64,
    t2: u64,
)
    requires
        t1 > first_deadline,
        t2 > t1 + max_period,
    ensures
        t2 - t1 > max_period,
{
}

/// Sleep after idle. With no forced sealing, no local transactions, an
/// engine that does not seal internally and the last work request more
/// than `SEALING_TIMEOUT_IN_BLOCKS` blocks behind the tip, nothing keeps
/// the sealer awake; `requires_reseal` then promises to disable sealing
/// and empty the work history.
pub proof fn lemma_sleep_after_idle(m: Miner, best_block: u64)
    requires
        !m.forced_sealing_spec(),
        !m.has_local_spec(),
        seals_internally_spec(m.engine.kind) is None,
        best_block > m.sealing.sealing_block_last_request,
        best_block - m.sealing.sealing_block_last_request > SEALING_TIMEOUT_IN_BLOCKS,
    ensures
        !m.sealing_should_continue(best_block),
{
}

/// Pending-set correctness. When the newest candidate is not newer than
/// the chain tip, the freshness predicate that gates every sealing-mode
/// pending query is false, so those queries answer empty or nothing.
pub proof fn lemma_stale_pending_empty(m: Miner, latest: u64)
    requires
        m.work().len() > 0 ==> m.work().last().header.number <= latest,
    ensures
        !m.pending_fresh(latest),
{
}

/// No candidate matches the hash, so the lookup reports it unknown.
pub proof fn lemma_find_none(q: Seq<ClosedBlockV>, hash: u64)
    requires
        forall|j: int| 0 <= j < q.len() ==> (#[trigger] q[j]).header.hash != hash,
    ensures
        find_newest_with_hash(q, hash) == -1,
    decreases q.len(),
{
    if q.len() > 0 {
        lemma_find_none(q.drop_last(), hash);
    }
}

/// Resubmission policy. A submission finds the newest candidate with the
/// given hash. Under resubmission the history is left as it was, so a
/// second seal for the same candidate is found again; without it the
/// candidate is taken, and when it was the only one with that hash, a
/// second submission finds nothing and must answer that the proof-of-work
/// hash is unknown.
pub proof fn lemma_resubmission(q: Seq<ClosedBlockV>, hash: u64)
    requires
        find_newest_with_hash(q, hash) >= 0,
        forall|j: int|
            0 <= j < q.len() && j != find_newest_with_hash(q, hash)
                ==> (#[trigger] q[j]).header.hash != hash,
    ensures
        find_newest_with_hash(q.remove(find_newest_with_hash(q, hash)), hash) == -1,
{
    let i = find_newest_with_hash(q, hash);
    lemma_find_newest_props(q, hash);
    let q2 = q.remove(i);
    assert forall|j: int| 0 <= j < q2.len()
        implies (#[trigger] q2[j]).header.hash != hash
    by {
        if j < i {
            assert(q2[j] == q[j]);
        } else {
            assert(q2[j] == q[j + 1]);
        }
    };
    lemma_find_none(q2, hash);
}

} // verus!
