//! Blocks as the authoring core sees them: an open block accepting
//! transactions under a gas budget, and the closed candidate it becomes.
//!
//! Block hashes are a deterministic mix of the header fields and the
//! transaction list, so re-assembling identical content yields an identical
//! hash.

use vstd::prelude::*;
use crate::types::{Transaction, Receipt, PushError};

verus! {

/// Modulus used to fold mixes back into 64 bits.
pub const U64_MOD: u128 = 0x1_0000_0000_0000_0000;

/// One mixing step of the model hash.
pub open spec fn mix2_spec(a: u64, b: u64) -> u64 {
    (((a as int) * 1_000_003 + (b as int)) % (U64_MOD as int)) as u64
}

/// Folds two words into one, as `mix2_spec` says.
pub fn mix2(a: u64, b: u64) -> (r: u64)
    ensures
        r == mix2_spec(a, b),
{
    let m: u128 = (a as u128) * 1_000_003 + (b as u128);
    (m % U64_MOD) as u64
}

/// Mix of a transaction sequence, newest last.
pub open spec fn txs_mix_spec(txs: Seq<Transaction>) -> u64
    decreases txs.len(),
{
    if txs.len() == 0 {
        0u64
    } else {
        mix2_spec(txs_mix_spec(txs.drop_last()), txs.last().hash)
    }
}

/// Content hash of a block: a mix of parent hash, number, gas limit,
/// extra-data length and the transaction list.
pub open spec fn block_hash_spec(
    parent_hash: u64,
    number: u64,
    gas_limit: u128,
    extra_len: int,
    txs: Seq<Transaction>,
) -> u64 {
    mix2_spec(
        mix2_spec(
            mix2_spec(mix2_spec(parent_hash, number), (gas_limit % U64_MOD) as u64),
            (extra_len % (U64_MOD as int)) as u64,
        ),
        txs_mix_spec(txs),
    )
}

/// Total gas of the first `n` transactions.
pub open spec fn prefix_gas(txs: Seq<Transaction>, n: int) -> int
    decreases n,
{
    if n <= 0 {
        0
    } else {
        prefix_gas(txs, n - 1) + txs[n - 1].gas
    }
}

/// How many of the first `n` transactions come from `sender`.
pub open spec fn count_sender_upto(txs: Seq<Transaction>, sender: u64, n: int) -> int
    decreases n,
{
    if n <= 0 {
        0
    } else {
        count_sender_upto(txs, sender, n - 1) + if txs[n - 1].sender == sender { 1int } else { 0int }
    }
}

/// Whether some transaction in the sequence has hash `h`.
pub open spec fn has_tx_hash(txs: Seq<Transaction>, h: u64) -> bool {
    exists|i: int| 0 <= i < txs.len() && txs[i].hash == h
}

/// The rule an open block applies to one incoming transaction, given the
/// transactions already in it: duplicates are refused, then the gas budget
/// is enforced, then the sender's nonce must be the count of its
/// transactions already included.
pub open spec fn block_verdict(
    txs: Seq<Transaction>,
    gas_limit: u128,
    gas_used: u128,
    tx: Transaction,
) -> Option<PushError> {
    if has_tx_hash(txs, tx.hash) {
        Some(PushError::AlreadyImported)
    } else if tx.gas > gas_limit - gas_used {
        Some(PushError::BlockGasLimitReached { gas_limit, gas_used, gas: tx.gas })
    } else if tx.nonce != count_sender_upto(txs, tx.sender, txs.len() as int) {
        Some(PushError::InvalidNonce)
    } else {
        None
    }
}

/// Mathematical value of a header.
#[verifier::ext_equal]
pub ghost struct HeaderV {
    /// Height of the block.
    pub number: u64,
    /// Hash of the parent block.
    pub parent_hash: u64,
    /// Content hash; zero while the block is still open.
    pub hash: u64,
    /// Beneficiary address.
    pub author: u64,
    /// Difficulty carried by the header.
    pub difficulty: u128,
    /// Gas budget of the block.
    pub gas_limit: u128,
    /// Gas used by the transactions included so far.
    pub gas_used: u128,
    /// Timestamp of the block.
    pub timestamp: u64,
    /// Arbitrary extra data chosen by the author.
    pub extra_data: Seq<u8>,
}

/// A block header.
#[derive(Debug)]
pub struct Header {
    /// Height of the block.
    pub number: u64,
    /// Hash of the parent block.
    pub parent_hash: u64,
    /// Content hash; zero while the block is still open.
    pub hash: u64,
    /// Beneficiary address.
    pub author: u64,
    /// Difficulty carried by the header.
    pub difficulty: u128,
    /// Gas budget of the block.
    pub gas_limit: u128,
    /// Gas used by the transactions included so far.
    pub gas_used: u128,
    /// Timestamp of the block.
    pub timestamp: u64,
    /// Arbitrary extra data chosen by the author.
    pub extra_data: Vec<u8>,
}

impl View for Header {
    type V = HeaderV;

    open spec fn view(&self) -> HeaderV {
        HeaderV {
            number: self.number,
            parent_hash: self.parent_hash,
            hash: self.hash,
            author: self.author,
            difficulty: self.difficulty,
            gas_limit: self.gas_limit,
            gas_used: self.gas_used,
            timestamp: self.timestamp,
            extra_data: self.extra_data@,
        }
    }
}

impl Header {
    /// Copies the header field by field.
    pub fn duplicate(&self) -> (r: Self)
        ensures
            r@ == self@,
    {
        let r = Header {
            number: self.number,
            parent_hash: self.parent_hash,
            hash: self.hash,
            author: self.author,
            difficulty: self.difficulty,
            gas_limit: self.gas_limit,
            gas_used: self.gas_used,
            timestamp: self.timestamp,
            extra_data: crate::types::clone_vec(&self.extra_data),
        };
        proof {
            assert(r@ =~= self@);
        }
        r
    }
}

/// A base block: header plus transaction list.
#[derive(Debug)]
pub struct Block {
    /// The header.
    pub header: Header,
    /// The transactions, in inclusion order.
    pub transactions: Vec<Transaction>,
}

/// A block still accepting transactions.
#[derive(Debug)]
pub struct OpenBlock {
    /// The header under construction; its `hash` field stays zero.
    pub header: Header,
    /// Transactions included so far.
    pub transactions: Vec<Transaction>,
    /// One receipt per included transaction, with cumulative gas.
    pub receipts: Vec<Receipt>,
}

impl OpenBlock {
    /// Internal consistency: receipts mirror the transactions, cumulative
    /// gas is the prefix sum of their gas, and the budget is respected.
    pub open spec fn wf(self) -> bool {
        &&& self.receipts@.len() == self.transactions@.len()
        &&& self.header.gas_used == prefix_gas(self.transactions@, self.transactions@.len() as int)
        &&& forall|i: int| 0 <= i < self.receipts@.len()
                ==> #[trigger] self.receipts@[i].gas_used == prefix_gas(self.transactions@, i + 1)
        &&& self.header.gas_used <= self.header.gas_limit
    }

    /// Raises the gas limit; used for the infinite-pending override.
    pub fn set_gas_limit(&mut self, limit: u128)
        requires
            old(self).wf(),
            limit >= old(self).header.gas_used,
        ensures
            final(self).wf(),
            final(self).header@ == (HeaderV { gas_limit: limit, ..old(self).header@ }),
            final(self).transactions@ == old(self).transactions@,
            final(self).receipts@ == old(self).receipts@,
    {
        self.header.gas_limit = limit;
        proof {
            assert(self.header@ =~= (HeaderV { gas_limit: limit, ..old(self).header@ }));
        }
    }

    /// Tries to include one transaction, as `block_verdict` says: on
    /// success the transaction and its receipt are appended and the gas
    /// used grows by its gas; on failure nothing changes.
    pub fn push_transaction(&mut self, tx: Transaction) -> (r: Result<(), PushError>)
        requires
            old(self).wf(),
        ensures
            final(self).wf(),
            ({
                let verdict = block_verdict(
                    old(self).transactions@,
                    old(self).header.gas_limit,
                    old(self).header.gas_used,
                    tx,
                );
                match verdict {
                    Some(e) => {
                        &&& r == Result::<(), PushError>::Err(e)
                        &&& final(self).header@ == old(self).header@
                        &&& final(self).transactions@ == old(self).transactions@
                        &&& final(self).receipts@ == old(self).receipts@
                    },
                    None => {
                        &&& r == Result::<(), PushError>::Ok(())
                        &&& final(self).transactions@ == old(self).transactions@.push(tx)
                        &&& final(self).receipts@ == old(self).receipts@.push(
                            Receipt { gas_used: (old(self).header.gas_used + tx.gas) as u128 },
                        )
                        &&& final(self).header@ == (HeaderV {
                            gas_used: (old(self).header.gas_used + tx.gas) as u128,
                            ..old(self).header@
                        })
                    },
                }
            }),
    {
        if self.contains_hash(tx.hash) {
            return Err(PushError::AlreadyImported);
        }
        if tx.gas > self.header.gas_limit - self.header.gas_used {
            return Err(PushError::BlockGasLimitReached {
                gas_limit: self.header.gas_limit,
                gas_used: self.header.gas_used,
                gas: tx.gas,
            });
        }
        if tx.nonce != self.count_from_sender(tx.sender) {
            return Err(PushError::InvalidNonce);
        }
        let cumulative: u128 = self.header.gas_used + tx.gas;
        self.transactions.push(tx);
        self.receipts.push(Receipt { gas_used: cumulative });
        self.header.gas_used = cumulative;
        proof {
            let txs = self.transactions@;
            assert(txs.drop_last() == old(self).transactions@);
            assert(prefix_gas(txs, txs.len() as int)
                == prefix_gas(txs, txs.len() as int - 1) + txs[txs.len() as int - 1].gas);
            assert forall|n: int| 0 <= n < txs.len()
                implies prefix_gas(txs, n) == prefix_gas(old(self).transactions@, n)
            by {
                lemma_prefix_gas_extend(old(self).transactions@, tx, n);
            };
            assert(self.header@ =~= (HeaderV {
                gas_used: cumulative,
                ..old(self).header@
            }));
        }
        Ok(())
    }

    /// Whether the block already holds a transaction with hash `h`.
    pub fn contains_hash(&self, h: u64) -> (r: bool)
        ensures
            r == has_tx_hash(self.transactions@, h),
    {
        let mut i: usize = 0;
        while i < self.transactions.len()
            invariant
                i <= self.transactions@.len(),
                forall|j: int| 0 <= j < i ==> self.transactions@[j].hash != h,
            decreases self.transactions@.len() - i,
        {
            if self.transactions[i].hash == h {
                return true;
            }
            i = i + 1;
        }
        false
    }

    /// How many included transactions come from `sender`; this is the nonce
    /// expected of its next transaction.
    pub fn count_from_sender(&self, sender: u64) -> (r: u64)
        ensures
            r == count_sender_upto(self.transactions@, sender, self.transactions@.len() as int),
    {
        let mut i: usize = 0;
        let mut count: u64 = 0;
        while i < self.transactions.len()
            invariant
                i <= self.transactions@.len(),
                count == count_sender_upto(self.transactions@, sender, i as int),
                count <= i,
            decreases self.transactions@.len() - i,
        {
            if self.transactions[i].sender == sender {
                count = count + 1;
            }
            i = i + 1;
        }
        count
    }

    /// Closes the block: fixes its content hash and yields the candidate.
    pub fn close(self) -> (r: ClosedBlock)
        requires
            self.wf(),
        ensures
            r.wf(),
            r.header.hash == block_hash_spec(
                self.header.parent_hash,
                self.header.number,
                self.header.gas_limit,
                self.header.extra_data@.len() as int,
                self.transactions@,
            ),
            r.header@ == (HeaderV { hash: r.header.hash, ..self.header@ }),
            r.transactions@ == self.transactions@,
            r.receipts@ == self.receipts@,
            r.state_root == mix2_spec(r.header.hash, 1),
    {
        let txm = txs_mix(&self.transactions);
        let h0 = mix2(self.header.parent_hash, self.header.number);
        let h1 = mix2(h0, (self.header.gas_limit % U64_MOD) as u64);
        let h2 = mix2(h1, ((self.header.extra_data.len() as u128) % U64_MOD) as u64);
        let hash = mix2(h2, txm);
        let state_root = mix2(hash, 1);
        let mut header = self.header;
        header.hash = hash;
        let r = ClosedBlock {
            header,
            transactions: self.transactions,
            receipts: self.receipts,
            state_root,
        };
        proof {
            assert(r.header@ =~= (HeaderV { hash: r.header.hash, ..self.header@ }));
        }
        r
    }
}

/// Proves that extending a sequence does not change prefix sums over the
/// old range.
pub proof fn lemma_prefix_gas_extend(txs: Seq<Transaction>, tx: Transaction, n: int)
    requires
        0 <= n <= txs.len(),
    ensures
        prefix_gas(txs.push(tx), n) == prefix_gas(txs, n),
    decreases n,
{
    if n > 0 {
        lemma_prefix_gas_extend(txs, tx, n - 1);
        assert(txs.push(tx)[n - 1] == txs[n - 1]);
    }
}

/// Computes the transaction mix of `txs_mix_spec`.
pub fn txs_mix(txs: &Vec<Transaction>) -> (r: u64)
    ensures
        r == txs_mix_spec(txs@),
{
    let mut i: usize = 0;
    let mut acc: u64 = 0;
    while i < txs.len()
        invariant
            i <= txs@.len(),
            acc == txs_mix_spec(txs@.subrange(0, i as int)),
        decreases txs@.len() - i,
    {
        acc = mix2(acc, txs[i].hash);
        i = i + 1;
        proof {
            let pre = txs@.subrange(0, i as int);
            assert(pre.drop_last() =~= txs@.subrange(0, i as int - 1));
            assert(pre.last() == txs@[i as int - 1]);
        }
    }
    proof {
        assert(txs@.subrange(0, txs@.len() as int) =~= txs@);
    }
    acc
}

/// Mathematical value of a candidate block.
#[verifier::ext_equal]
pub ghost struct ClosedBlockV {
    /// The header value.
    pub header: HeaderV,
    /// Transactions, in inclusion order.
    pub transactions: Seq<Transaction>,
    /// One receipt per transaction, with cumulative gas.
    pub receipts: Seq<Receipt>,
    /// Root of the post-execution state.
    pub state_root: u64,
}

/// A fully assembled but unsealed candidate block.
#[derive(Debug)]
pub struct ClosedBlock {
    /// The closed header, with its content hash fixed.
    pub header: Header,
    /// Transactions, in inclusion order.
    pub transactions: Vec<Transaction>,
    /// One receipt per transaction, with cumulative gas.
    pub receipts: Vec<Receipt>,
    /// Root of the post-execution state.
    pub state_root: u64,
}

impl View for ClosedBlock {
    type V = ClosedBlockV;

    open spec fn view(&self) -> ClosedBlockV {
        ClosedBlockV {
            header: self.header@,
            transactions: self.transactions@,
            receipts: self.receipts@,
            state_root: self.state_root,
        }
    }
}

impl ClosedBlock {
    /// Internal consistency, as for an open block.
    pub open spec fn wf(self) -> bool {
        &&& self.receipts@.len() == self.transactions@.len()
        &&& self.header.gas_used == prefix_gas(self.transactions@, self.transactions@.len() as int)
        &&& forall|i: int| 0 <= i < self.receipts@.len()
                ==> #[trigger] self.receipts@[i].gas_used == prefix_gas(self.transactions@, i + 1)
        &&& self.header.gas_used <= self.header.gas_limit
    }

    /// Copies the candidate field by field.
    pub fn duplicate(&self) -> (r: Self)
        ensures
            r@ == self@,
    {
        let r = ClosedBlock {
            header: self.header.duplicate(),
            transactions: crate::types::clone_vec(&self.transactions),
            receipts: crate::types::clone_vec(&self.receipts),
            state_root: self.state_root,
        };
        proof {
            assert(r@ =~= self@);
        }
        r
    }

    /// Reopens the candidate so more transactions can be pushed; the
    /// content hash is dropped until it is closed again.
    pub fn reopen(self) -> (r: OpenBlock)
        requires
            self.wf(),
        ensures
            r.wf(),
            r.header@ == (HeaderV { hash: 0u64, ..self.header@ }),
            r.transactions@ == self.transactions@,
            r.receipts@ == self.receipts@,
    {
        let mut header = self.header;
        header.hash = 0;
        let r = OpenBlock { header, transactions: self.transactions, receipts: self.receipts };
        proof {
            assert(r.header@ =~= (HeaderV { hash: 0u64, ..self.header@ }));
        }
        r
    }

    /// The base block: header and transactions, receipts dropped.
    pub fn to_base(&self) -> (r: Block)
        ensures
            r.header@ == self.header@,
            r.transactions@ == self.transactions@,
    {
        Block {
            header: self.header.duplicate(),
            transactions: crate::types::clone_vec(&self.transactions),
        }
    }
}

/// A candidate with its consensus seal attached.
#[derive(Debug)]
pub struct SealedBlock {
    /// The sealed header.
    pub header: Header,
    /// Transactions, in inclusion order.
    pub transactions: Vec<Transaction>,
    /// The seal fields.
    pub seal: Vec<Vec<u8>>,
}

} // verus!
