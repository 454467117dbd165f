//! Transaction pool boundary: an ordered queue of verified transactions
//! with import, snapshot, removal and culling operations.
//!
//! Pool internals (ordering policy, eviction, memory accounting) are out of
//! scope for the authoring core; this queue keeps insertion order and
//! enforces hash uniqueness, well-formedness, the minimum gas price for
//! non-local transactions, the per-transaction gas cap and the count limit.

use vstd::prelude::*;
use crate::types::{Transaction, PendingTransaction, TxError};
use crate::options::{PoolLimits, VerifierOptions};

verus! {

/// A transaction offered to the pool, tagged with its origin.
#[derive(Clone, Copy, Debug, PartialEq, Eq, Structural)]
pub enum PoolTx {
    /// Received from the network; only cheap checks were done.
    Unverified(Transaction),
    /// Submitted by this node.
    Local(PendingTransaction),
    /// Returned to the pool by a chain reorganisation.
    Retracted(Transaction),
}

impl PoolTx {
    /// The transaction carried by the tag.
    pub open spec fn tx_of(self) -> Transaction {
        match self {
            PoolTx::Unverified(t) => t,
            PoolTx::Local(p) => p.transaction,
            PoolTx::Retracted(t) => t,
        }
    }

    /// Whether the pool records the transaction as local.
    pub open spec fn is_local(self) -> bool {
        self matches PoolTx::Local(_)
    }

    /// Whether acceptance skips the minimum-gas-price check: local and
    /// retracted transactions were already accepted once.
    pub open spec fn trusted_origin(self) -> bool {
        !(self matches PoolTx::Unverified(_))
    }
}

/// A stored transaction with its locality mark.
#[derive(Clone, Copy, Debug, PartialEq, Eq, Structural)]
pub struct QueuedTx {
    /// The transaction.
    pub tx: Transaction,
    /// Whether it was imported as local.
    pub local: bool,
}

/// Whether some stored transaction has hash `h`.
pub open spec fn has_pool_hash(txs: Seq<QueuedTx>, h: u64) -> bool {
    exists|i: int| 0 <= i < txs.len() && txs[i].tx.hash == h
}

/// Whether the sequence of hashes holds `h`.
pub open spec fn has_hash(hashes: Seq<u64>, h: u64) -> bool {
    exists|i: int| 0 <= i < hashes.len() && hashes[i] == h
}

/// The rule the pool applies to one offered transaction, given what it
/// already holds.
pub open spec fn import_verdict(
    txs: Seq<QueuedTx>,
    limits: PoolLimits,
    opts: VerifierOptions,
    item: PoolTx,
) -> Option<TxError> {
    let tx = item.tx_of();
    if has_pool_hash(txs, tx.hash) {
        Some(TxError::AlreadyImported)
    } else if !tx.well_formed {
        Some(TxError::Invalid)
    } else if tx.gas > opts.tx_gas_limit {
        Some(TxError::GasLimitExceeded)
    } else if !item.trusted_origin() && tx.gas_price < opts.minimal_gas_price {
        Some(TxError::InsufficientGasPrice)
    } else if txs.len() >= limits.max_count {
        Some(TxError::LimitReached)
    } else {
        None
    }
}

/// Pool contents and per-item results after importing a prefix of `items`.
pub open spec fn import_upto(
    txs: Seq<QueuedTx>,
    limits: PoolLimits,
    opts: VerifierOptions,
    items: Seq<PoolTx>,
    n: int,
) -> (Seq<QueuedTx>, Seq<Result<(), TxError>>)
    decreases n,
{
    if n <= 0 {
        (txs, Seq::empty())
    } else {
        let (prev_txs, prev_results) = import_upto(txs, limits, opts, items, n - 1);
        let item = items[n - 1];
        match import_verdict(prev_txs, limits, opts, item) {
            Some(e) => (prev_txs, prev_results.push(Err(e))),
            None => (
                prev_txs.push(QueuedTx { tx: item.tx_of(), local: item.is_local() }),
                prev_results.push(Ok(())),
            ),
        }
    }
}

/// The stored transactions whose hash is not among `hashes`.
pub open spec fn retained_upto(txs: Seq<QueuedTx>, hashes: Seq<u64>, n: int) -> Seq<QueuedTx>
    decreases n,
{
    if n <= 0 {
        Seq::empty()
    } else {
        let pre = retained_upto(txs, hashes, n - 1);
        if has_hash(hashes, txs[n - 1].tx.hash) {
            pre
        } else {
            pre.push(txs[n - 1])
        }
    }
}

/// The transactions of a snapshot, honouring an optional nonce cap.
pub open spec fn snapshot_upto(txs: Seq<QueuedTx>, nonce_cap: Option<u64>, n: int) -> Seq<Transaction>
    decreases n,
{
    if n <= 0 {
        Seq::empty()
    } else {
        let pre = snapshot_upto(txs, nonce_cap, n - 1);
        let keep = match nonce_cap {
            Some(cap) => txs[n - 1].tx.nonce < cap,
            None => true,
        };
        if keep {
            pre.push(txs[n - 1].tx)
        } else {
            pre
        }
    }
}

/// Ordered queue of verified transactions awaiting inclusion.
#[derive(Debug)]
pub struct TransactionQueue {
    txs: Vec<QueuedTx>,
    limits: PoolLimits,
    options: VerifierOptions,
}

impl TransactionQueue {
    /// The stored transactions, in insertion order.
    pub closed spec fn contents(self) -> Seq<QueuedTx> {
        self.txs@
    }

    /// The current verification thresholds.
    pub closed spec fn opts(self) -> VerifierOptions {
        self.options
    }

    /// The pool limits set at construction.
    pub closed spec fn lims(self) -> PoolLimits {
        self.limits
    }

    /// Stored hashes are unique.
    pub closed spec fn wf(self) -> bool {
        forall|i: int, j: int|
            0 <= i < j < self.txs@.len()
                ==> #[trigger] self.txs@[i].tx.hash != #[trigger] self.txs@[j].tx.hash
    }

    /// An empty pool.
    pub fn new(limits: PoolLimits, options: VerifierOptions) -> (r: TransactionQueue)
        ensures
            r.wf(),
            r.contents() == Seq::<QueuedTx>::empty(),
            r.opts() == options,
            r.lims() == limits,
    {
        let r = TransactionQueue { txs: Vec::new(), limits, options };
        proof {
            assert(r.contents() =~= Seq::<QueuedTx>::empty());
        }
        r
    }

    /// Whether the pool holds a transaction with hash `h`.
    pub fn contains_hash(&self, h: u64) -> (r: bool)
        ensures
            r == has_pool_hash(self.contents(), h),
    {
        let mut i: usize = 0;
        while i < self.txs.len()
            invariant
                i <= self.txs@.len(),
                forall|j: int| 0 <= j < i ==> self.txs@[j].tx.hash != h,
            decreases self.txs@.len() - i,
        {
            if self.txs[i].tx.hash == h {
                return true;
            }
            i = i + 1;
        }
        false
    }

    /// Imports a batch, yielding one result per offered transaction, in
    /// order, as `import_upto` over the batch says.
    pub fn import(&mut self, items: Vec<PoolTx>) -> (r: Vec<Result<(), TxError>>)
        requires
            old(self).wf(),
        ensures
            final(self).wf(),
            final(self).opts() == old(self).opts(),
            final(self).lims() == old(self).lims(),
            (final(self).contents(), r@) == import_upto(
                old(self).contents(),
                old(self).lims(),
                old(self).opts(),
                items@,
                items@.len() as int,
            ),
    {
        let ghost orig = *old(self);
        let mut results: Vec<Result<(), TxError>> = Vec::new();
        let mut i: usize = 0;
        while i < items.len()
            invariant
                i <= items@.len(),
                self.wf(),
                self.opts() == orig.opts(),
                self.lims() == orig.lims(),
                (self.contents(), results@) == import_upto(
                    orig.contents(),
                    orig.lims(),
                    orig.opts(),
                    items@,
                    i as int,
                ),
            decreases items@.len() - i,
        {
            let item = items[i];
            let tx = match item {
                PoolTx::Unverified(t) => t,
                PoolTx::Local(p) => p.transaction,
                PoolTx::Retracted(t) => t,
            };
            let trusted = match item {
                PoolTx::Unverified(_) => false,
                PoolTx::Local(_) => true,
                PoolTx::Retracted(_) => true,
            };
            let is_local = match item {
                PoolTx::Unverified(_) => false,
                PoolTx::Local(_) => true,
                PoolTx::Retracted(_) => false,
            };
            let verdict: Option<TxError> = if self.contains_hash(tx.hash) {
                Some(TxError::AlreadyImported)
            } else if !tx.well_formed {
                Some(TxError::Invalid)
            } else if tx.gas > self.options.tx_gas_limit {
                Some(TxError::GasLimitExceeded)
            } else if !trusted && tx.gas_price < self.options.minimal_gas_price {
                Some(TxError::InsufficientGasPrice)
            } else if self.txs.len() >= self.limits.max_count {
                Some(TxError::LimitReached)
            } else {
                None
            };
            match verdict {
                Some(e) => {
                    results.push(Err(e));
                },
                None => {
                    self.txs.push(QueuedTx { tx, local: is_local });
                    results.push(Ok(()));
                },
            }
            i = i + 1;
        }
        results
    }

    /// A snapshot of the stored transactions in order, keeping only nonces
    /// below the cap when one is given. The best-block coordinates scope
    /// the snapshot; the model pool holds no stale entries to drop by them.
    pub fn pending(
        &self,
        _best_block_number: u64,
        _best_block_timestamp: u64,
        nonce_cap: Option<u64>,
    ) -> (r: Vec<Transaction>)
        ensures
            r@ == snapshot_upto(self.contents(), nonce_cap, self.contents().len() as int),
    {
        let mut r: Vec<Transaction> = Vec::new();
        let mut i: usize = 0;
        while i < self.txs.len()
            invariant
                i <= self.txs@.len(),
                r@ == snapshot_upto(self.txs@, nonce_cap, i as int),
            decreases self.txs@.len() - i,
        {
            let keep = match nonce_cap {
                Some(cap) => self.txs[i].tx.nonce < cap,
                None => true,
            };
            if keep {
                r.push(self.txs[i].tx);
            }
            i = i + 1;
        }
        r
    }

    /// Whether any stored transaction was imported as local.
    pub fn has_local_transactions(&self) -> (r: bool)
        ensures
            r == exists|i: int| 0 <= i < self.contents().len() && #[trigger] self.contents()[i].local,
    {
        let mut i: usize = 0;
        while i < self.txs.len()
            invariant
                i <= self.txs@.len(),
                forall|j: int| 0 <= j < i ==> !(#[trigger] self.txs@[j].local),
            decreases self.txs@.len() - i,
        {
            if self.txs[i].local {
                proof {
                    assert(self.contents()[i as int].local);
                }
                return true;
            }
            i = i + 1;
        }
        false
    }

    /// Removes the transactions whose hash is listed. The flag records
    /// whether they are dropped as invalid or merely as not allowed; the
    /// model pool forgets them either way.
    pub fn remove(&mut self, hashes: &Vec<u64>, _is_invalid: bool)
        requires
            old(self).wf(),
        ensures
            final(self).wf(),
            final(self).opts() == old(self).opts(),
            final(self).lims() == old(self).lims(),
            final(self).contents() == retained_upto(
                old(self).contents(),
                hashes@,
                old(self).contents().len() as int,
            ),
    {
        let ghost orig = *old(self);
        let mut kept: Vec<QueuedTx> = Vec::new();
        let mut i: usize = 0;
        while i < self.txs.len()
            invariant
                i <= self.txs@.len(),
                self.txs@ == orig.contents(),
                self.opts() == orig.opts(),
                self.lims() == orig.lims(),
                orig.wf(),
                kept@ == retained_upto(orig.contents(), hashes@, i as int),
            decreases self.txs@.len() - i,
        {
            let mut found = false;
            let mut j: usize = 0;
            while j < hashes.len()
                invariant
                    j <= hashes@.len(),
                    i < self.txs@.len(),
                    found == exists|k: int| 0 <= k < j && hashes@[k] == self.txs@[i as int].tx.hash,
                decreases hashes@.len() - j,
            {
                if hashes[j] == self.txs[i].tx.hash {
                    found = true;
                }
                j = j + 1;
            }
            proof {
                assert(found == has_hash(hashes@, self.txs@[i as int].tx.hash));
            }
            if !found {
                kept.push(self.txs[i]);
            }
            i = i + 1;
        }
        proof {
            lemma_retained_sub(orig.contents(), hashes@, orig.contents().len() as int);
        }
        self.txs = kept;
    }

    /// Drops the transactions already included in the chain, given their
    /// hashes.
    pub fn cull(&mut self, included: &Vec<u64>)
        requires
            old(self).wf(),
        ensures
            final(self).wf(),
            final(self).opts() == old(self).opts(),
            final(self).lims() == old(self).lims(),
            final(self).contents() == retained_upto(
                old(self).contents(),
                included@,
                old(self).contents().len() as int,
            ),
    {
        self.remove(included, false);
    }

    /// Looks a stored transaction up by hash.
    pub fn find(&self, hash: u64) -> (r: Option<Transaction>)
        requires
            self.wf(),
        ensures
            match r {
                Some(t) => {
                    &&& t.hash == hash
                    &&& has_pool_hash(self.contents(), hash)
                    &&& forall|i: int| 0 <= i < self.contents().len()
                        && (#[trigger] self.contents()[i]).tx.hash == hash
                        ==> self.contents()[i].tx == t
                },
                None => !has_pool_hash(self.contents(), hash),
            },
    {
        let mut i: usize = 0;
        while i < self.txs.len()
            invariant
                self.wf(),
                i <= self.txs@.len(),
                forall|j: int| 0 <= j < i ==> self.txs@[j].tx.hash != hash,
            decreases self.txs@.len() - i,
        {
            if self.txs[i].tx.hash == hash {
                proof {
                    assert(self.contents()[i as int].tx == self.txs@[i as int].tx);
                }
                return Some(self.txs[i].tx);
            }
            i = i + 1;
        }
        None
    }

    /// The lowest gas price the pool currently accepts.
    pub fn current_worst_gas_price(&self) -> (r: u128)
        ensures
            r == self.opts().minimal_gas_price,
    {
        self.options.minimal_gas_price
    }

    /// Replaces the verification thresholds; stored transactions stay.
    pub fn set_verifier_options(&mut self, options: VerifierOptions)
        requires
            old(self).wf(),
        ensures
            final(self).wf(),
            final(self).contents() == old(self).contents(),
            final(self).lims() == old(self).lims(),
            final(self).opts() == options,
    {
        self.options = options;
    }

    /// The highest nonce the pool holds for `sender`, if any.
    pub fn last_nonce(&self, sender: u64) -> (r: Option<u64>)
        ensures
            match r {
                Some(n) => {
                    &&& exists|i: int| 0 <= i < self.contents().len()
                        && (#[trigger] self.contents()[i]).tx.sender == sender
                        && self.contents()[i].tx.nonce == n
                    &&& forall|i: int| 0 <= i < self.contents().len()
                        && (#[trigger] self.contents()[i]).tx.sender == sender
                        ==> self.contents()[i].tx.nonce <= n
                },
                None => forall|i: int| 0 <= i < self.contents().len()
                    ==> (#[trigger] self.contents()[i]).tx.sender != sender,
            },
    {
        let mut best: Option<u64> = None;
        let mut i: usize = 0;
        while i < self.txs.len()
            invariant
                i <= self.txs@.len(),
                match best {
                    Some(n) => {
                        &&& exists|j: int| 0 <= j < i
                            && (#[trigger] self.txs@[j]).tx.sender == sender
                            && self.txs@[j].tx.nonce == n
                        &&& forall|j: int| 0 <= j < i
                            && (#[trigger] self.txs@[j]).tx.sender == sender
                            ==> self.txs@[j].tx.nonce <= n
                    },
                    None => forall|j: int| 0 <= j < i
                        ==> (#[trigger] self.txs@[j]).tx.sender != sender,
                },
            decreases self.txs@.len() - i,
        {
            if self.txs[i].tx.sender == sender {
                let n = self.txs[i].tx.nonce;
                best = match best {
                    Some(m) => if n > m {
                        Some(n)
                    } else {
                        Some(m)
                    },
                    None => Some(n),
                };
            }
            i = i + 1;
        }
        proof {
            if best is Some {
                let n = best.unwrap();
                let j = choose|j: int| 0 <= j < self.txs@.len()
                    && (#[trigger] self.txs@[j]).tx.sender == sender
                    && self.txs@[j].tx.nonce == n;
                assert(self.contents()[j].tx.sender == sender
                    && self.contents()[j].tx.nonce == n);
            }
        }
        best
    }

    /// How many transactions are stored.
    pub fn len(&self) -> (r: usize)
        ensures
            r == self.contents().len(),
    {
        self.txs.len()
    }
}

/// Retained entries keep unique hashes: what `retained_upto` yields is a
/// subsequence of the original entries.
pub proof fn lemma_retained_sub(txs: Seq<QueuedTx>, hashes: Seq<u64>, n: int)
    requires
        0 <= n <= txs.len(),
        forall|i: int, j: int|
            0 <= i < j < txs.len() ==> #[trigger] txs[i].tx.hash != #[trigger] txs[j].tx.hash,
    ensures
        forall|a: int, b: int|
            0 <= a < b < retained_upto(txs, hashes, n).len()
                ==> #[trigger] retained_upto(txs, hashes, n)[a].tx.hash
                    != #[trigger] retained_upto(txs, hashes, n)[b].tx.hash,
        forall|a: int| 0 <= a < retained_upto(txs, hashes, n).len()
            ==> exists|o: int| 0 <= o < n && #[trigger] retained_upto(txs, hashes, n)[a] == txs[o],
    decreases n,
{
    if n > 0 {
        lemma_retained_sub(txs, hashes, n - 1);
        let pre = retained_upto(txs, hashes, n - 1);
        let cur = retained_upto(txs, hashes, n);
        if !has_hash(hashes, txs[n - 1].tx.hash) {
            assert forall|a: int, b: int|
                0 <= a < b < cur.len() implies #[trigger] cur[a].tx.hash != #[trigger] cur[b].tx.hash
            by {
                if b == cur.len() - 1 {
                    let o = choose|o: int| 0 <= o < n - 1 && pre[a] == txs[o];
                    assert(cur[a] == txs[o]);
                    assert(cur[b] == txs[n - 1]);
                }
            };
        }
    }
}

} // verus!
