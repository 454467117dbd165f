//! Configuration of the authoring core.

use vstd::prelude::*;

verus! {

/// Default minimum gas price accepted by the pool verifier.
pub const DEFAULT_MINIMAL_GAS_PRICE: u128 = 20_000_000_000;

/// Default memory budget of the transaction pool, in bytes.
pub const DEFAULT_POOL_MEM_USAGE: usize = 8 * 1024 * 1024;

/// Which set of transactions "pending" queries read.
#[derive(Clone, Copy, Debug, PartialEq, Eq, Structural)]
pub enum PendingSet {
    /// Always just the transactions in the queue. These have had only cheap
    /// checks.
    AlwaysQueue,
    /// Always just the transactions in the sealing block. These have had
    /// full checks but may be empty if the node is not actively sealing.
    AlwaysSealing,
}

/// Size limits of the transaction pool.
#[derive(Clone, Copy, Debug, PartialEq, Eq, Structural)]
pub struct PoolLimits {
    /// Maximum number of transactions held at once.
    pub max_count: usize,
    /// Maximum number of transactions per sender.
    pub max_per_sender: usize,
    /// Maximum memory usage of the pool, in bytes.
    pub max_mem_usage: usize,
}

impl Default for PoolLimits {
    /// Default pool limits.
    fn default() -> (r: Self)
        ensures
            r.max_count == 16_384,
            r.max_per_sender == 64,
            r.max_mem_usage == DEFAULT_POOL_MEM_USAGE,
    {
        PoolLimits { max_count: 16_384, max_per_sender: 64, max_mem_usage: DEFAULT_POOL_MEM_USAGE }
    }
}

/// Verification thresholds the pool applies to incoming transactions.
#[derive(Clone, Copy, Debug, PartialEq, Eq, Structural)]
pub struct VerifierOptions {
    /// Minimum gas price of an acceptable non-local transaction.
    pub minimal_gas_price: u128,
    /// Gas limit of the block being targeted.
    pub block_gas_limit: u128,
    /// Maximum gas of a single transaction.
    pub tx_gas_limit: u128,
}

impl Default for VerifierOptions {
    /// Default verifier thresholds.
    fn default() -> (r: Self)
        ensures
            r.minimal_gas_price == DEFAULT_MINIMAL_GAS_PRICE,
            r.block_gas_limit == u128::MAX,
            r.tx_gas_limit == u128::MAX,
    {
        VerifierOptions {
            minimal_gas_price: DEFAULT_MINIMAL_GAS_PRICE,
            block_gas_limit: u128::MAX,
            tx_gas_limit: u128::MAX,
        }
    }
}

/// Configures the behaviour of the miner.
///
/// Periods are expressed in milliseconds, matching the instants handed to
/// the time-sensitive entry points.
#[derive(Clone, Copy, Debug, PartialEq, Eq, Structural)]
pub struct MinerOptions {
    /// Force the miner to reseal, even when nobody has asked for work.
    pub force_sealing: bool,
    /// Reseal on receipt of new external transactions.
    pub reseal_on_external_tx: bool,
    /// Reseal on receipt of new local transactions.
    pub reseal_on_own_tx: bool,
    /// Reseal when a new uncle block has been imported.
    pub reseal_on_uncle: bool,
    /// Minimum period between transaction-inspired reseals, in milliseconds.
    pub reseal_min_period: u64,
    /// Maximum period between blocks, in milliseconds; forces sealing after
    /// that.
    pub reseal_max_period: u64,
    /// Whether pending queries read the pool or the sealing block.
    pub pending_set: PendingSet,
    /// How many historical work packages are kept.
    pub work_queue_size: usize,
    /// Whether two different seals for the same block may both be imported.
    pub enable_resubmission: bool,
    /// Create pending blocks with the maximal possible gas limit. Such a
    /// block holds all pending transactions but would be invalid if sealed.
    pub infinite_pending_block: bool,
    /// Refuse service transactions even when the sender is certified.
    pub refuse_service_transactions: bool,
    /// Transaction pool limits.
    pub pool_limits: PoolLimits,
    /// Initial transaction verification options.
    pub pool_verification_options: VerifierOptions,
}

impl Default for MinerOptions {
    /// The default configuration: keep local-transaction resealing on, a
    /// two-second reseal throttle, a two-minute mandatory cadence, and a
    /// work history of twenty candidates.
    fn default() -> (r: Self)
        ensures
            !r.force_sealing,
            !r.reseal_on_external_tx,
            r.reseal_on_own_tx,
            !r.reseal_on_uncle,
            r.reseal_min_period == 2_000,
            r.reseal_max_period == 120_000,
            r.pending_set == PendingSet::AlwaysQueue,
            r.work_queue_size == 20,
            r.enable_resubmission,
            !r.infinite_pending_block,
            !r.refuse_service_transactions,
            r.pool_limits == (PoolLimits {
                max_count: 16_384,
                max_per_sender: 64,
                max_mem_usage: DEFAULT_POOL_MEM_USAGE,
            }),
            r.pool_verification_options == (VerifierOptions {
                minimal_gas_price: DEFAULT_MINIMAL_GAS_PRICE,
                block_gas_limit: u128::MAX,
                tx_gas_limit: u128::MAX,
            }),
    {
        MinerOptions {
            force_sealing: false,
            reseal_on_external_tx: false,
            reseal_on_own_tx: true,
            reseal_on_uncle: false,
            reseal_min_period: 2_000,
            reseal_max_period: 120_000,
            pending_set: PendingSet::AlwaysQueue,
            work_queue_size: 20,
            enable_resubmission: true,
            infinite_pending_block: false,
            refuse_service_transactions: false,
            pool_limits: PoolLimits::default(),
            pool_verification_options: VerifierOptions::default(),
        }
    }
}

/// Configurable parameters of block authoring.
#[derive(Debug)]
pub struct AuthoringParams {
    /// Lower and upper bound of the block gas limit being targeted.
    pub gas_range_target: (u128, u128),
    /// Block author: the address credited as beneficiary.
    pub author: u64,
    /// Extra data placed in authored block headers.
    pub extra_data: Vec<u8>,
}

impl Default for AuthoringParams {
    /// Zero author, zero gas target, empty extra data.
    fn default() -> (r: Self)
        ensures
            r.gas_range_target == (0u128, 0u128),
            r.author == 0,
            r.extra_data@ == Seq::<u8>::empty(),
    {
        AuthoringParams { gas_range_target: (0, 0), author: 0, extra_data: Vec::new() }
    }
}

impl AuthoringParams {
    /// Copies the parameters field by field.
    pub fn duplicate(&self) -> (r: Self)
        ensures
            r.gas_range_target == self.gas_range_target,
            r.author == self.author,
            r.extra_data@ == self.extra_data@,
    {
        AuthoringParams {
            gas_range_target: self.gas_range_target,
            author: self.author,
            extra_data: crate::types::clone_vec(&self.extra_data),
        }
    }
}

} // verus!
