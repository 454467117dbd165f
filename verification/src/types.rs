//! Plain value types shared across the authoring core.
//!
//! Chain-level quantities are modelled as machine integers: hashes and
//! addresses as `u64` identifiers, 256-bit gas and price quantities as
//! `u128`.

use vstd::prelude::*;

verus! {

/// A signed transaction, reduced to the fields the authoring core reads.
///
/// `well_formed` stands for "re-verification against current state
/// succeeds"; `service` marks a service transaction, which the core may be
/// configured to refuse.
#[derive(Clone, Copy, Debug, PartialEq, Eq, Structural)]
pub struct Transaction {
    /// Transaction hash.
    pub hash: u64,
    /// Sender address.
    pub sender: u64,
    /// Sender nonce.
    pub nonce: u64,
    /// Gas allowance, fully consumed on execution in this model.
    pub gas: u128,
    /// Price per unit of gas.
    pub gas_price: u128,
    /// True when the transaction creates a contract rather than calling one.
    pub creates_contract: bool,
    /// Chain id the transaction was signed for.
    pub chain_id: u64,
    /// Service transaction marker.
    pub service: bool,
    /// Whether re-verification against current state succeeds.
    pub well_formed: bool,
}

/// A transaction imported as "local", optionally delayed by a condition.
#[derive(Clone, Copy, Debug, PartialEq, Eq, Structural)]
pub struct PendingTransaction {
    /// The transaction itself.
    pub transaction: Transaction,
    /// Optional inclusion condition (opaque to the core).
    pub condition: Option<u64>,
}

impl PendingTransaction {
    /// Pairs a transaction with an optional inclusion condition.
    pub fn new(transaction: Transaction, condition: Option<u64>) -> (r: PendingTransaction)
        ensures
            r.transaction == transaction,
            r.condition == condition,
    {
        PendingTransaction { transaction, condition }
    }
}

/// Execution receipt for one transaction; `gas_used` is cumulative for the
/// block up to and including that transaction.
#[derive(Clone, Copy, Debug, PartialEq, Eq, Structural)]
pub struct Receipt {
    /// Cumulative gas used by the block after this transaction.
    pub gas_used: u128,
}

/// A receipt enriched for query callers.
#[derive(Clone, Copy, Debug, PartialEq, Eq, Structural)]
pub struct RichReceipt {
    /// Hash of the transaction the receipt belongs to.
    pub transaction_hash: u64,
    /// Position of the transaction in the pending block.
    pub transaction_index: usize,
    /// Cumulative gas used up to and including this transaction.
    pub cumulative_gas_used: u128,
    /// Gas used by this transaction alone.
    pub gas_used: u128,
    /// Address of the created contract, for creation transactions.
    pub contract_address: Option<u64>,
}

/// Errors surfaced when importing a transaction into the pool.
#[derive(Clone, Copy, Debug, PartialEq, Eq, Structural)]
pub enum TxError {
    /// The pool already holds a transaction with this hash.
    AlreadyImported,
    /// Service transactions are refused by configuration.
    NotAllowed,
    /// The pool is full.
    LimitReached,
    /// The transaction asks for more gas than a single transaction may use.
    GasLimitExceeded,
    /// The gas price is below the pool's minimum.
    InsufficientGasPrice,
    /// Re-verification against current state failed.
    Invalid,
}

/// Outcome of pushing one transaction onto an open block.
#[derive(Clone, Copy, Debug, PartialEq, Eq, Structural)]
pub enum PushError {
    /// The transaction does not fit in the remaining gas budget.
    BlockGasLimitReached {
        /// The block's gas limit.
        gas_limit: u128,
        /// Gas already used by the block.
        gas_used: u128,
        /// Gas asked for by the transaction.
        gas: u128,
    },
    /// The sender's nonce does not match the expected next nonce.
    InvalidNonce,
    /// The block already contains this transaction.
    AlreadyImported,
    /// Service transactions are refused by configuration.
    NotAllowed,
    /// Re-verification against current state failed.
    Invalid,
}

/// Errors returned by the sealing entry points.
#[derive(Clone, Copy, Debug, PartialEq, Eq, Structural)]
pub enum Error {
    /// `submit_seal` was given a block hash with no matching candidate.
    PowHashInvalid,
    /// The engine rejected the submitted seal.
    PowInvalid,
    /// The chain client refused the sealed block.
    Import,
    /// The endpoint has no defined semantics in this layer.
    NotSupported,
}

/// Errors from signer management.
#[derive(Clone, Copy, Debug, PartialEq, Eq, Structural)]
pub enum AccountError {
    /// No account provider, or the address is unknown to it.
    NotFound,
    /// The password does not unlock the account.
    InvalidPassword,
}

/// Copies a vector of copyable elements.
pub fn clone_vec<T: Copy>(v: &Vec<T>) -> (r: Vec<T>)
    ensures
        r@ == v@,
{
    let mut r: Vec<T> = Vec::new();
    let mut i: usize = 0;
    while i < v.len()
        invariant
            i <= v.len(),
            r@ == v@.subrange(0, i as int),
        decreases v.len() - i,
    {
        r.push(v[i]);
        i = i + 1;
        proof {
            assert(r@ =~= v@.subrange(0, i as int));
        }
    }
    proof {
        assert(v@.subrange(0, v@.len() as int) =~= v@);
    }
    r
}

} // verus!
