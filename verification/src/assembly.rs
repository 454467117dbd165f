//! Draining pooled transactions into an open block under a gas budget,
//! with the failure-classification policy of the assembler.

use vstd::prelude::*;
use crate::types::{Transaction, PushError};
use crate::block::{OpenBlock, HeaderV, block_verdict};
use crate::chain::{verify_verdict, verify_signed};

verus! {

/// Gas of the smallest possible transaction; draining stops when less is
/// left in the block's budget.
pub const MIN_TX_GAS: u128 = 21_000;

/// How many gas-budget skips are tolerated before draining stops.
pub const MAX_SKIPPED_TRANSACTIONS: usize = 8;

/// State of a drain in progress.
#[verifier::ext_equal]
pub ghost struct DrainState {
    /// Transactions in the open block.
    pub txs: Seq<Transaction>,
    /// Gas used by the open block.
    pub gas_used: u128,
    /// Gas-budget skips so far.
    pub skipped: int,
    /// Hashes to drop from the pool as invalid.
    pub invalid: Seq<u64>,
    /// Hashes to drop from the pool without invalidating them.
    pub not_allowed: Seq<u64>,
    /// Whether draining has stopped early.
    pub done: bool,
    /// Transactions accepted so far.
    pub tx_count: int,
}

/// The verdict on one transaction: re-verification against current state
/// first, then the open block's own rule.
pub open spec fn drain_verdict(
    s: DrainState,
    gas_limit: u128,
    refuse_service: bool,
    tx: Transaction,
) -> Option<PushError> {
    match verify_verdict(tx, refuse_service) {
        Some(e) => Some(e),
        None => block_verdict(s.txs, gas_limit, s.gas_used, tx),
    }
}

/// One step of the drain: a successful push is counted; a gas-budget miss
/// invalidates transactions over the whole block limit, stops the drain
/// when less than `MIN_TX_GAS` is left or too much was skipped; a nonce
/// mismatch or duplicate is skipped silently; refused service transactions
/// are dropped without invalidation; anything else is dropped as invalid.
pub open spec fn drain_step(
    s: DrainState,
    gas_limit: u128,
    refuse_service: bool,
    tx: Transaction,
) -> DrainState {
    if s.done {
        s
    } else {
        match drain_verdict(s, gas_limit, refuse_service, tx) {
            None => DrainState {
                txs: s.txs.push(tx),
                gas_used: (s.gas_used + tx.gas) as u128,
                tx_count: s.tx_count + 1,
                ..s
            },
            Some(PushError::BlockGasLimitReached { gas_limit: gl, gas_used: gu, gas }) => {
                let s1 = if gas > gl {
                    DrainState { invalid: s.invalid.push(tx.hash), ..s }
                } else {
                    s
                };
                if gl - gu < MIN_TX_GAS {
                    DrainState { done: true, ..s1 }
                } else if s1.skipped + 1 > MAX_SKIPPED_TRANSACTIONS {
                    DrainState { skipped: s1.skipped + 1, done: true, ..s1 }
                } else {
                    DrainState { skipped: s1.skipped + 1, ..s1 }
                }
            },
            Some(PushError::InvalidNonce) => s,
            Some(PushError::AlreadyImported) => s,
            Some(PushError::NotAllowed) => DrainState {
                not_allowed: s.not_allowed.push(tx.hash),
                ..s
            },
            Some(PushError::Invalid) => DrainState { invalid: s.invalid.push(tx.hash), ..s },
        }
    }
}

/// The drain state after offering the first `n` pooled transactions.
pub open spec fn drain_upto(
    init: DrainState,
    gas_limit: u128,
    refuse_service: bool,
    pending: Seq<Transaction>,
    n: int,
) -> DrainState
    decreases n,
{
    if n <= 0 {
        init
    } else {
        drain_step(
            drain_upto(init, gas_limit, refuse_service, pending, n - 1),
            gas_limit,
            refuse_service,
            pending[n - 1],
        )
    }
}

/// The initial drain state for an open block.
pub open spec fn drain_init(blk: OpenBlock) -> DrainState {
    DrainState {
        txs: blk.transactions@,
        gas_used: blk.header.gas_used,
        skipped: 0,
        invalid: Seq::empty(),
        not_allowed: Seq::empty(),
        done: false,
        tx_count: 0,
    }
}

/// Once the drain has stopped, further transactions change nothing.
pub proof fn lemma_drain_stable(
    init: DrainState,
    gas_limit: u128,
    refuse_service: bool,
    pending: Seq<Transaction>,
    m: int,
    n: int,
)
    requires
        0 <= m <= n <= pending.len(),
        drain_upto(init, gas_limit, refuse_service, pending, m).done,
    ensures
        drain_upto(init, gas_limit, refuse_service, pending, n)
            == drain_upto(init, gas_limit, refuse_service, pending, m),
    decreases n - m,
{
    if m < n {
        lemma_drain_stable(init, gas_limit, refuse_service, pending, m, n - 1);
    }
}

/// What the drain hands back beside the filled block.
#[derive(Debug)]
pub struct DrainOutcome {
    /// Hashes to drop from the pool as invalid.
    pub invalid: Vec<u64>,
    /// Hashes to drop from the pool without invalidating them.
    pub not_allowed: Vec<u64>,
    /// Transactions accepted into the block.
    pub tx_count: usize,
}

/// Offers the pending transactions to the open block in order, classifying
/// each failure, exactly as `drain_upto` over the whole snapshot says.
pub fn drain_transactions(
    blk: &mut OpenBlock,
    pending: &Vec<Transaction>,
    refuse_service: bool,
) -> (r: DrainOutcome)
    requires
        old(blk).wf(),
    ensures
        final(blk).wf(),
        ({
            let fin = drain_upto(
                drain_init(*old(blk)),
                old(blk).header.gas_limit,
                refuse_service,
                pending@,
                pending@.len() as int,
            );
            &&& final(blk).transactions@ == fin.txs
            &&& final(blk).header@ == (HeaderV { gas_used: fin.gas_used, ..old(blk).header@ })
            &&& r.invalid@ == fin.invalid
            &&& r.not_allowed@ == fin.not_allowed
            &&& r.tx_count == fin.tx_count
        }),
{
    let ghost init = drain_init(*old(blk));
    let ghost gl = old(blk).header.gas_limit;
    let mut invalid: Vec<u64> = Vec::new();
    let mut not_allowed: Vec<u64> = Vec::new();
    let mut tx_count: usize = 0;
    let mut skipped: usize = 0;
    let mut stop = false;
    let mut i: usize = 0;
    while i < pending.len() && !stop
        invariant
            i <= pending@.len(),
            blk.wf(),
            blk.header.gas_limit == gl,
            init == drain_init(*old(blk)),
            gl == old(blk).header.gas_limit,
            tx_count <= i,
            skipped <= i,
            ({
                let s = drain_upto(init, gl, refuse_service, pending@, i as int);
                &&& blk.transactions@ == s.txs
                &&& blk.header.gas_used == s.gas_used
                &&& blk.header@ == (HeaderV { gas_used: s.gas_used, ..old(blk).header@ })
                &&& invalid@ == s.invalid
                &&& not_allowed@ == s.not_allowed
                &&& tx_count == s.tx_count
                &&& skipped == s.skipped
                &&& stop == s.done
            }),
        decreases pending@.len() - i,
    {
        let ghost s_pre = drain_upto(init, gl, refuse_service, pending@, i as int);
        let tx = pending[i];
        let result: Result<(), PushError> = match verify_signed(&tx, refuse_service) {
            Ok(_) => blk.push_transaction(tx),
            Err(e) => Err(e),
        };
        match result {
            Err(PushError::BlockGasLimitReached { gas_limit, gas_used, gas }) => {
                if gas > gas_limit {
                    invalid.push(tx.hash);
                }
                let gas_left = gas_limit - gas_used;
                if gas_left < MIN_TX_GAS {
                    stop = true;
                } else {
                    skipped = skipped + 1;
                    if skipped > MAX_SKIPPED_TRANSACTIONS {
                        stop = true;
                    }
                }
            },
            Err(PushError::InvalidNonce) => {},
            Err(PushError::AlreadyImported) => {},
            Err(PushError::NotAllowed) => {
                not_allowed.push(tx.hash);
            },
            Err(PushError::Invalid) => {
                invalid.push(tx.hash);
            },
            Ok(_) => {
                tx_count = tx_count + 1;
            },
        }
        i = i + 1;
        proof {
            let s_post = drain_upto(init, gl, refuse_service, pending@, i as int);
            assert(s_post == drain_step(s_pre, gl, refuse_service, pending@[i as int - 1]));
            assert(blk.header@ =~= (HeaderV { gas_used: s_post.gas_used, ..old(blk).header@ }));
        }
    }
    proof {
        if stop {
            lemma_drain_stable(init, gl, refuse_service, pending@, i as int, pending@.len() as int);
        }
    }
    DrainOutcome { invalid, not_allowed, tx_count }
}

} // verus!
