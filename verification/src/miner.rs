//! The sealing controller: drives reseal decisions, assembles candidate
//! blocks, dispatches internal versus external sealing, accepts seal
//! submissions and reacts to chain events.
//!
//! Wall-clock instants are plain millisecond words handed in by the
//! caller; periods in the configuration use the same unit.

use vstd::prelude::*;
use crate::types::{Transaction, PendingTransaction, Receipt, RichReceipt, TxError, Error, AccountError, clone_vec};
use crate::options::{MinerOptions, AuthoringParams, PendingSet};
use crate::block::{Header, HeaderV, ClosedBlock, ClosedBlockV, Block, block_hash_spec};
use crate::work_queue::{WorkQueue, GetAction, push_evict};
use crate::pool::{TransactionQueue, PoolTx, QueuedTx, import_upto, retained_upto, snapshot_upto, has_pool_hash};
use crate::engine::{Engine, EngineKind, Seal, seals_internally_spec, contract_address, contract_address_spec, ChainSpec};
use crate::accounts::AccountProvider;
use crate::chain::ChainClient;
use crate::assembly::{DrainState, drain_upto, drain_transactions};

verus! {

/// How many blocks after the last work request the sealer stays awake.
pub const SEALING_TIMEOUT_IN_BLOCKS: u64 = 5;

/// The sealing state: work history, enablement and reseal deadlines.
#[derive(Debug)]
pub struct SealingWork {
    /// The bounded work history.
    pub queue: WorkQueue,
    /// Whether triggers prepare work at all.
    pub enabled: bool,
    /// Earliest instant of the next non-mandatory reseal.
    pub next_allowed_reseal: u64,
    /// Instant after which an empty internal seal is produced anyway.
    pub next_mandatory_reseal: u64,
    /// Best block number at the last external work request.
    pub sealing_block_last_request: u64,
}

impl SealingWork {
    /// Whether a non-mandatory reseal is allowed at `now`.
    pub open spec fn reseal_allowed_spec(self, now: u64) -> bool {
        now > self.next_allowed_reseal
    }

    /// Checks the reseal throttle.
    pub fn reseal_allowed(&self, now: u64) -> (r: bool)
        ensures
            r == self.reseal_allowed_spec(now),
    {
        now > self.next_allowed_reseal
    }
}

/// A work package announced to external listeners.
#[derive(Clone, Copy, Debug, PartialEq, Eq, Structural)]
pub struct WorkPackage {
    /// The hash miners work on.
    pub pow_hash: u64,
    /// Difficulty of the candidate.
    pub difficulty: u128,
    /// Height of the candidate.
    pub number: u64,
}

/// An external work listener; it records every package it was notified
/// of, in order.
#[derive(Debug)]
pub struct WorkListener {
    /// The packages received so far.
    pub notified: Vec<WorkPackage>,
}

impl WorkListener {
    /// A listener that has heard nothing yet.
    pub fn new() -> (r: WorkListener)
        ensures
            r.notified@ == Seq::<WorkPackage>::empty(),
    {
        let r = WorkListener { notified: Vec::new() };
        proof {
            assert(r.notified@ =~= Seq::<WorkPackage>::empty());
        }
        r
    }
}

/// The gas-price recalibrator, fixed to one price in this model.
#[derive(Clone, Copy, Debug, PartialEq, Eq, Structural)]
pub struct GasPricer {
    /// The minimum gas price the pricer reports.
    pub price: u128,
}

impl GasPricer {
    /// A pricer that always reports `price`.
    pub fn new_fixed(price: u128) -> (r: GasPricer)
        ensures
            r.price == price,
    {
        GasPricer { price }
    }

    /// Recomputes the minimum gas price.
    pub fn recalibrate(&self) -> (r: u128)
        ensures
            r == self.price,
    {
        self.price
    }
}

/// Keeps track of pooled transactions and the currently sealed candidate
/// blocks; prepares work for external sealing or seals internally when the
/// engine does not require work.
#[derive(Debug)]
pub struct Miner {
    /// Sealing state: work history, enablement, deadlines.
    pub sealing: SealingWork,
    /// Authoring parameters.
    pub params: AuthoringParams,
    /// Registered external work listeners.
    pub listeners: Vec<WorkListener>,
    /// The gas-price recalibrator.
    pub gas_pricer: GasPricer,
    /// Configuration.
    pub options: MinerOptions,
    /// The shared transaction pool.
    pub transaction_queue: TransactionQueue,
    /// The consensus engine.
    pub engine: Engine,
    /// The account provider, when one is attached.
    pub accounts: Option<AccountProvider>,
}

impl Miner {
    /// The structural invariant of the controller.
    pub open spec fn wf(self) -> bool {
        &&& self.sealing.queue.wf()
        &&& self.transaction_queue.wf()
        &&& self.sealing.queue.cap() == self.options.work_queue_size
    }

    /// Work history contents, oldest first.
    pub open spec fn work(self) -> Seq<ClosedBlockV> {
        self.sealing.queue.contents()
    }

    /// Forced sealing: configured, or some listener is registered.
    pub open spec fn forced_sealing_spec(self) -> bool {
        self.options.force_sealing || self.listeners@.len() > 0
    }

    /// Whether the pool holds a local transaction.
    pub open spec fn has_local_spec(self) -> bool {
        exists|i: int|
            0 <= i < self.transaction_queue.contents().len()
                && #[trigger] self.transaction_queue.contents()[i].local
    }

    /// Whether the sealer should stay awake at `best_block`: kept up by
    /// forced sealing, local transactions, an internally sealing engine,
    /// or a work request at most `SEALING_TIMEOUT_IN_BLOCKS` blocks ago.
    pub open spec fn sealing_should_continue(self, best_block: u64) -> bool {
        ||| self.forced_sealing_spec()
        ||| self.has_local_spec()
        ||| seals_internally_spec(self.engine.kind) is Some
        ||| !(best_block > self.sealing.sealing_block_last_request
            && best_block - self.sealing.sealing_block_last_request > SEALING_TIMEOUT_IN_BLOCKS)
    }

    /// Whether the newest candidate is fresher than the chain tip; pending
    /// queries answer only then.
    pub open spec fn pending_fresh(self, latest: u64) -> bool {
        self.work().len() > 0 && self.work().last().header.number > latest
    }

    /// Hash of the newest candidate, if any; the assembler's snapshot.
    pub open spec fn snapshot_hash_spec(self) -> Option<u64> {
        if self.work().len() > 0 {
            Some(self.work().last().header.hash)
        } else {
            None
        }
    }

    /// Notification logs of the listeners, in registration order.
    pub open spec fn listeners_logs(self) -> Seq<Seq<WorkPackage>> {
        self.listeners@.map_values(|l: WorkListener| l.notified@)
    }

    /// The accounts of the attached provider, if any.
    pub open spec fn accounts_v(self) -> Option<Seq<(u64, u64)>> {
        match self.accounts {
            Some(a) => Some(a.accounts()),
            None => None,
        }
    }

    /// Authoring parameters as plain values.
    pub open spec fn params_v(self) -> (u64, (u128, u128), Seq<u8>) {
        (self.params.author, self.params.gas_range_target, self.params.extra_data@)
    }

    /// Configuration, engine, pricer and accounts are untouched.
    pub open spec fn cfg_unchanged(a: Miner, b: Miner) -> bool {
        &&& b.options == a.options
        &&& b.engine == a.engine
        &&& b.gas_pricer == a.gas_pricer
        &&& b.accounts_v() == a.accounts_v()
    }

    /// The pool is untouched.
    pub open spec fn pool_unchanged(a: Miner, b: Miner) -> bool {
        &&& b.transaction_queue.contents() == a.transaction_queue.contents()
        &&& b.transaction_queue.opts() == a.transaction_queue.opts()
        &&& b.transaction_queue.lims() == a.transaction_queue.lims()
    }

    /// The sealing state is untouched.
    pub open spec fn sealing_unchanged(a: Miner, b: Miner) -> bool {
        &&& b.work() == a.work()
        &&& b.sealing.queue.in_use() == a.sealing.queue.in_use()
        &&& b.sealing.queue.cap() == a.sealing.queue.cap()
        &&& b.sealing.enabled == a.sealing.enabled
        &&& b.sealing.next_allowed_reseal == a.sealing.next_allowed_reseal
        &&& b.sealing.next_mandatory_reseal == a.sealing.next_mandatory_reseal
        &&& b.sealing.sealing_block_last_request == a.sealing.sealing_block_last_request
    }

    /// Listener logs are untouched.
    pub open spec fn listeners_unchanged(a: Miner, b: Miner) -> bool {
        b.listeners_logs() == a.listeners_logs()
    }

    /// Creates a new controller around the given pool configuration,
    /// engine and accounts. Sealing starts enabled only under forced
    /// sealing or an internally sealing engine; the first mandatory reseal
    /// is one maximum period away.
    pub fn new(
        options: MinerOptions,
        gas_pricer: GasPricer,
        spec: &ChainSpec,
        accounts: Option<AccountProvider>,
        now: u64,
    ) -> (r: Miner)
        requires
            now + options.reseal_max_period <= u64::MAX,
        ensures
            r.wf(),
            r.work() == Seq::<ClosedBlockV>::empty(),
            !r.sealing.queue.in_use(),
            r.sealing.enabled == (options.force_sealing
                || seals_internally_spec(spec.engine.kind) is Some),
            r.sealing.next_allowed_reseal == now,
            r.sealing.next_mandatory_reseal == now + options.reseal_max_period,
            r.sealing.sealing_block_last_request == 0,
            r.params_v() == (0u64, (0u128, 0u128), Seq::<u8>::empty()),
            r.listeners_logs() == Seq::<Seq<WorkPackage>>::empty(),
            r.gas_pricer == gas_pricer,
            r.options == options,
            r.transaction_queue.contents() == Seq::<QueuedTx>::empty(),
            r.transaction_queue.opts() == options.pool_verification_options,
            r.transaction_queue.lims() == options.pool_limits,
            r.engine == spec.engine,
            r.accounts_v() == (match accounts {
                Some(a) => Some(a.accounts()),
                None => None::<Seq<(u64, u64)>>,
            }),
    {
        let enabled = options.force_sealing || spec.engine.seals_internally().is_some();
        let queue = WorkQueue::new(options.work_queue_size);
        let transaction_queue = TransactionQueue::new(
            options.pool_limits,
            options.pool_verification_options,
        );
        let r = Miner {
            sealing: SealingWork {
                queue,
                enabled,
                next_allowed_reseal: now,
                next_mandatory_reseal: now + options.reseal_max_period,
                sealing_block_last_request: 0,
            },
            params: AuthoringParams::default(),
            listeners: Vec::new(),
            gas_pricer,
            options,
            transaction_queue,
            engine: spec.engine,
            accounts,
        };
        proof {
            assert(r.listeners_logs() =~= Seq::<Seq<WorkPackage>>::empty());
        }
        r
    }

    /// A controller for tests: default options, no minimum gas price.
    pub fn new_for_tests(
        spec: &ChainSpec,
        accounts: Option<AccountProvider>,
        now: u64,
    ) -> (r: Miner)
        requires
            now <= u64::MAX - 120_000,
        ensures
            r.wf(),
            r.work() == Seq::<ClosedBlockV>::empty(),
            r.sealing.enabled == (seals_internally_spec(spec.engine.kind) is Some),
            r.sealing.next_allowed_reseal == now,
            r.sealing.next_mandatory_reseal == now + 120_000,
            r.sealing.sealing_block_last_request == 0,
            r.options.reseal_on_own_tx && !r.options.reseal_on_external_tx,
            r.options.pending_set == PendingSet::AlwaysQueue,
            r.options.work_queue_size == 20,
            r.options.enable_resubmission,
            !r.options.force_sealing,
            r.options.reseal_min_period == 2_000,
            r.options.reseal_max_period == 120_000,
            r.transaction_queue.contents() == Seq::<QueuedTx>::empty(),
            r.transaction_queue.opts().minimal_gas_price == 0,
            r.listeners_logs() == Seq::<Seq<WorkPackage>>::empty(),
            r.engine == spec.engine,
            r.accounts_v() == (match accounts {
                Some(a) => Some(a.accounts()),
                None => None::<Seq<(u64, u64)>>,
            }),
    {
        let mut options = MinerOptions::default();
        options.pool_verification_options.minimal_gas_price = 0;
        Miner::new(options, GasPricer::new_fixed(0), spec, accounts, now)
    }

    /// Whether sealing is forced on regardless of demand.
    pub fn forced_sealing(&self) -> (r: bool)
        ensures
            r == self.forced_sealing_spec(),
    {
        self.options.force_sealing || self.listeners.len() > 0
    }

    /// Registers a listener for new work packages and enables sealing.
    pub fn add_work_listener(&mut self, listener: WorkListener)
        requires
            old(self).wf(),
        ensures
            final(self).wf(),
            final(self).sealing.enabled,
            final(self).listeners@ == old(self).listeners@.push(listener),
            final(self).work() == old(self).work(),
            Miner::pool_unchanged(*old(self), *final(self)),
            Miner::cfg_unchanged(*old(self), *final(self)),
    {
        self.sealing.enabled = true;
        self.listeners.push(listener);
    }

    /// Drops every pending candidate.
    pub fn clear(&mut self)
        requires
            old(self).wf(),
        ensures
            final(self).wf(),
            final(self).work() == Seq::<ClosedBlockV>::empty(),
            !final(self).sealing.queue.in_use(),
            final(self).sealing.enabled == old(self).sealing.enabled,
            final(self).sealing.next_allowed_reseal == old(self).sealing.next_allowed_reseal,
            final(self).sealing.next_mandatory_reseal == old(self).sealing.next_mandatory_reseal,
            final(self).sealing.sealing_block_last_request
                == old(self).sealing.sealing_block_last_request,
            Miner::pool_unchanged(*old(self), *final(self)),
            Miner::cfg_unchanged(*old(self), *final(self)),
            Miner::listeners_unchanged(*old(self), *final(self)),
            final(self).params_v() == old(self).params_v(),
    {
        self.sealing.queue.reset();
    }

    /// The reseal gate: when sealing is disabled nothing happens; when
    /// nothing keeps the sealer awake it goes to sleep, dropping its work
    /// history; otherwise the throttle is re-armed and resealing proceeds.
    pub fn requires_reseal(&mut self, now: u64, best_block: u64) -> (r: bool)
        requires
            old(self).wf(),
            now + old(self).options.reseal_min_period <= u64::MAX,
        ensures
            final(self).wf(),
            Miner::pool_unchanged(*old(self), *final(self)),
            Miner::cfg_unchanged(*old(self), *final(self)),
            Miner::listeners_unchanged(*old(self), *final(self)),
            final(self).params_v() == old(self).params_v(),
            final(self).sealing.next_mandatory_reseal
                == old(self).sealing.next_mandatory_reseal,
            final(self).sealing.sealing_block_last_request
                == old(self).sealing.sealing_block_last_request,
            r == (old(self).sealing.enabled
                && old(self).sealing_should_continue(best_block)),
            if !old(self).sealing.enabled {
                Miner::sealing_unchanged(*old(self), *final(self))
            } else if !old(self).sealing_should_continue(best_block) {
                &&& !final(self).sealing.enabled
                &&& final(self).work() == Seq::<ClosedBlockV>::empty()
                &&& !final(self).sealing.queue.in_use()
                &&& final(self).sealing.next_allowed_reseal
                    == old(self).sealing.next_allowed_reseal
            } else {
                &&& final(self).sealing.enabled
                &&& final(self).work() == old(self).work()
                &&& final(self).sealing.queue.in_use() == old(self).sealing.queue.in_use()
                &&& final(self).sealing.next_allowed_reseal
                    == now + old(self).options.reseal_min_period
            },
    {
        if !self.sealing.enabled {
            return false;
        }
        let has_local_transactions = self.transaction_queue.has_local_transactions();
        let last_request = self.sealing.sealing_block_last_request;
        let keep_awake = self.forced_sealing()
            || has_local_transactions
            || self.engine.seals_internally().is_some()
            || !(best_block > last_request
                && best_block - last_request > SEALING_TIMEOUT_IN_BLOCKS);
        if !keep_awake {
            self.sealing.enabled = false;
            self.sealing.queue.reset();
            false
        } else {
            self.sealing.next_allowed_reseal = now + self.options.reseal_min_period;
            true
        }
    }

    /// The header a fresh block opened atop the tip would carry.
    pub open spec fn fresh_header_spec(self, chain: ChainClient) -> HeaderV {
        HeaderV {
            number: (chain.best_number() + 1) as u64,
            parent_hash: chain.best_hash(),
            hash: 0u64,
            author: self.params.author,
            difficulty: crate::chain::MODEL_DIFFICULTY,
            gas_limit: if self.params.gas_range_target.1 > 0 {
                self.params.gas_range_target.1
            } else {
                chain.headers_seq().last().gas_limit
            },
            gas_used: 0u128,
            timestamp: if chain.headers_seq().last().timestamp < u64::MAX {
                (chain.headers_seq().last().timestamp + 1) as u64
            } else {
                u64::MAX as u64
            },
            extra_data: self.params.extra_data@,
        }
    }

    /// Whether the assembler reopens the newest candidate: it exists and
    /// was built atop the current best block.
    pub open spec fn reopen_case(self, chain: ChainClient) -> bool {
        self.work().len() > 0 && self.work().last().header.parent_hash == chain.best_hash()
    }

    /// The header of the block the assembler starts from, after the
    /// infinite-pending override.
    pub open spec fn base_header_spec(self, chain: ChainClient) -> HeaderV {
        let h = if self.reopen_case(chain) {
            HeaderV { hash: 0u64, ..self.work().last().header }
        } else {
            self.fresh_header_spec(chain)
        };
        if self.options.infinite_pending_block {
            HeaderV { gas_limit: u128::MAX, ..h }
        } else {
            h
        }
    }

    /// The transactions the assembler starts from.
    pub open spec fn base_txs_spec(self, chain: ChainClient) -> Seq<Transaction> {
        if self.reopen_case(chain) {
            self.work().last().transactions
        } else {
            Seq::empty()
        }
    }

    /// The nonce cap handed to the pool once dust protection is active.
    pub open spec fn nonce_cap_spec(self, best_number: u64) -> Option<u64> {
        if best_number + 1 >= self.engine.params.dust_protection_transition {
            let cap = (self.engine.params.nonce_cap_increment as int) * (best_number + 1);
            Some(if cap > u64::MAX { u64::MAX as u64 } else { cap as u64 })
        } else {
            None
        }
    }

    /// The pool snapshot the assembler drains.
    pub open spec fn pending_snapshot_spec(self, chain: ChainClient) -> Seq<Transaction> {
        snapshot_upto(
            self.transaction_queue.contents(),
            self.nonce_cap_spec(chain.best_number() as u64),
            self.transaction_queue.contents().len() as int,
        )
    }

    /// The drain the assembler performs over the snapshot.
    pub open spec fn prepared_drain(self, chain: ChainClient) -> DrainState {
        let h = self.base_header_spec(chain);
        drain_upto(
            DrainState {
                txs: self.base_txs_spec(chain),
                gas_used: h.gas_used,
                skipped: 0,
                invalid: Seq::empty(),
                not_allowed: Seq::empty(),
                done: false,
                tx_count: 0,
            },
            h.gas_limit,
            self.options.refuse_service_transactions,
            self.pending_snapshot_spec(chain),
            self.pending_snapshot_spec(chain).len() as int,
        )
    }

    /// The closed header the assembler yields.
    pub open spec fn assembled_header_spec(self, chain: ChainClient) -> HeaderV {
        let h = self.base_header_spec(chain);
        let d = self.prepared_drain(chain);
        HeaderV {
            hash: block_hash_spec(
                h.parent_hash,
                h.number,
                h.gas_limit,
                h.extra_data.len() as int,
                d.txs,
            ),
            gas_used: d.gas_used,
            ..h
        }
    }

    /// What the pool retains after the assembler drops the transactions it
    /// classified as invalid, then those it classified as not allowed.
    pub open spec fn pool_after_prepare(self, chain: ChainClient) -> Seq<QueuedTx> {
        let d = self.prepared_drain(chain);
        let p1 = retained_upto(
            self.transaction_queue.contents(),
            d.invalid,
            self.transaction_queue.contents().len() as int,
        );
        retained_upto(p1, d.not_allowed, p1.len() as int)
    }

    /// Prepares a new candidate for sealing: reopens the newest candidate
    /// when it still sits atop the best block, else opens a fresh block;
    /// drains the pool snapshot into it under the gas budget with the
    /// failure-classification policy; closes it; and drops the classified
    /// transactions from the pool. Returns the candidate and the hash of
    /// the previously newest candidate.
    pub fn prepare_block(&mut self, chain: &ChainClient) -> (r: (ClosedBlock, Option<u64>))
        requires
            old(self).wf(),
            chain.wf(),
            chain.best_number() < u64::MAX,
        ensures
            final(self).wf(),
            r.0.wf(),
            r.0@.header == old(self).assembled_header_spec(*chain),
            r.0@.transactions == old(self).prepared_drain(*chain).txs,
            r.1 == old(self).snapshot_hash_spec(),
            final(self).work() == if old(self).reopen_case(*chain) {
                old(self).work().drop_last()
            } else {
                old(self).work()
            },
            final(self).sealing.queue.in_use() == if old(self).reopen_case(*chain) {
                false
            } else {
                old(self).sealing.queue.in_use()
            },
            final(self).sealing.enabled == old(self).sealing.enabled,
            final(self).sealing.next_allowed_reseal == old(self).sealing.next_allowed_reseal,
            final(self).sealing.next_mandatory_reseal == old(self).sealing.next_mandatory_reseal,
            final(self).sealing.sealing_block_last_request
                == old(self).sealing.sealing_block_last_request,
            final(self).transaction_queue.contents() == old(self).pool_after_prepare(*chain),
            final(self).transaction_queue.opts() == old(self).transaction_queue.opts(),
            final(self).transaction_queue.lims() == old(self).transaction_queue.lims(),
            Miner::cfg_unchanged(*old(self), *final(self)),
            Miner::listeners_unchanged(*old(self), *final(self)),
            final(self).params_v() == old(self).params_v(),
    {
        let ghost m = *old(self);
        let chain_info = chain.chain_info();
        let best_hash = chain_info.best_block_hash;

        let original_work_hash = match self.sealing.queue.peek_last() {
            Some(b) => Some(b.header.hash),
            None => None,
        };

        let mut open_block = match self.sealing.queue.pop_if_parent(best_hash) {
            Some(old_block) => old_block.reopen(),
            None => chain.prepare_open_block(
                self.params.author,
                self.params.gas_range_target,
                clone_vec(&self.params.extra_data),
            ),
        };
        if self.options.infinite_pending_block {
            open_block.set_gas_limit(u128::MAX);
        }
        proof {
            assert(open_block.header@ =~= m.base_header_spec(*chain));
            assert(open_block.transactions@ == m.base_txs_spec(*chain));
        }

        let engine_params = self.engine.engine_params();
        let next_number = chain_info.best_block_number + 1;
        let nonce_cap: Option<u64> = if next_number >= engine_params.dust_protection_transition {
            proof {
                vstd::arithmetic::mul::lemma_mul_upper_bound(
                    engine_params.nonce_cap_increment as int,
                    u64::MAX as int,
                    next_number as int,
                    u64::MAX as int,
                );
            }
            let cap128: u128 = (engine_params.nonce_cap_increment as u128) * (next_number as u128);
            if cap128 > u64::MAX as u128 {
                Some(u64::MAX)
            } else {
                Some(cap128 as u64)
            }
        } else {
            None
        };
        proof {
            assert(nonce_cap == m.nonce_cap_spec(chain.best_number() as u64));
        }

        let pending = self.transaction_queue.pending(
            chain_info.best_block_number,
            chain_info.best_block_timestamp,
            nonce_cap,
        );
        proof {
            assert(pending@ == m.pending_snapshot_spec(*chain));
        }

        let outcome = drain_transactions(
            &mut open_block,
            &pending,
            self.options.refuse_service_transactions,
        );
        proof {
            assert(open_block.header@ =~= (HeaderV {
                gas_used: m.prepared_drain(*chain).gas_used,
                ..m.base_header_spec(*chain)
            }));
        }

        let block = open_block.close();
        proof {
            assert(block@.header =~= m.assembled_header_spec(*chain));
        }

        self.transaction_queue.remove(&outcome.invalid, true);
        self.transaction_queue.remove(&outcome.not_allowed, false);

        (block, original_work_hash)
    }

    /// Stores freshly prepared work and announces it: the candidate is
    /// pushed unless it is already the newest entry; listeners hear of it
    /// only when it differs from the snapshot taken before assembly.
    pub fn prepare_work(&mut self, block: ClosedBlock, original_work_hash: Option<u64>)
        requires
            old(self).wf(),
            block.wf(),
        ensures
            final(self).wf(),
            Miner::pool_unchanged(*old(self), *final(self)),
            Miner::cfg_unchanged(*old(self), *final(self)),
            final(self).params_v() == old(self).params_v(),
            final(self).sealing.enabled == old(self).sealing.enabled,
            final(self).sealing.next_allowed_reseal == old(self).sealing.next_allowed_reseal,
            final(self).sealing.next_mandatory_reseal == old(self).sealing.next_mandatory_reseal,
            final(self).sealing.sealing_block_last_request
                == old(self).sealing.sealing_block_last_request,
            final(self).listeners_logs().len() == old(self).listeners_logs().len(),
            ({
                let bh = block@.header.hash;
                let q = old(self).work();
                let push_needed = q.len() == 0 || q.last().header.hash != bh;
                let is_new = push_needed && original_work_hash != Some(bh);
                &&& if push_needed {
                    &&& final(self).work() == push_evict(q, block@, old(self).sealing.queue.cap())
                    &&& final(self).sealing.queue.in_use() == (is_new
                        && old(self).listeners@.len() > 0 && final(self).work().len() > 0)
                } else {
                    &&& final(self).work() == q
                    &&& final(self).sealing.queue.in_use() == old(self).sealing.queue.in_use()
                }
                &&& if is_new {
                    forall|i: int| 0 <= i < old(self).listeners_logs().len()
                        ==> final(self).listeners_logs()[i]
                            == old(self).listeners_logs()[i].push(WorkPackage {
                                pow_hash: bh,
                                difficulty: block@.header.difficulty,
                                number: block@.header.number,
                            })
                } else {
                    Miner::listeners_unchanged(*old(self), *final(self))
                }
            }),
    {
        let block_hash = block.header.hash;
        let difficulty = block.header.difficulty;
        let number = block.header.number;

        let push_needed = match self.sealing.queue.peek_last() {
            Some(b) => b.header.hash != block_hash,
            None => true,
        };
        let mut is_new = false;
        if push_needed {
            is_new = match original_work_hash {
                Some(h) => h != block_hash,
                None => true,
            };
            self.sealing.queue.push(block);
            if is_new && self.listeners.len() > 0 {
                self.sealing.queue.use_last();
            }
        }
        if is_new {
            let pkg = WorkPackage { pow_hash: block_hash, difficulty, number };
            let ghost orig_ls = self.listeners@;
            let ghost mid = *self;
            let mut updated: Vec<WorkListener> = Vec::new();
            while self.listeners.len() > 0
                invariant
                    orig_ls == mid.listeners@,
                    self.sealing == mid.sealing,
                    self.params_v() == mid.params_v(),
                    self.transaction_queue == mid.transaction_queue,
                    self.options == mid.options,
                    self.engine == mid.engine,
                    self.gas_pricer == mid.gas_pricer,
                    self.accounts_v() == mid.accounts_v(),
                    updated@.len() + self.listeners@.len() == orig_ls.len(),
                    forall|i: int| 0 <= i < updated@.len()
                        ==> #[trigger] updated@[i].notified@ == orig_ls[i].notified@.push(pkg),
                    forall|i: int| 0 <= i < self.listeners@.len()
                        ==> #[trigger] self.listeners@[i] == orig_ls[updated@.len() + i],
                decreases self.listeners@.len(),
            {
                let mut l = self.listeners.remove(0);
                l.notified.push(pkg);
                updated.push(l);
            }
            self.listeners = updated;
            proof {
                assert(self.sealing == mid.sealing);
                assert(self.listeners_logs().len() == orig_ls.len());
                assert forall|i: int| 0 <= i < orig_ls.len()
                    implies #[trigger] self.listeners_logs()[i]
                        == orig_ls.map_values(|l: WorkListener| l.notified@)[i].push(pkg)
                by {
                    assert(self.listeners@[i].notified@ == orig_ls[i].notified@.push(pkg));
                };
            }
        }
    }

    /// Attempts internal sealing. Empty candidates are refused until the
    /// mandatory deadline unless sealing is forced. A proposal seal is
    /// stored, marked in use and broadcast; a regular seal is imported
    /// into the chain; success is reported only for a sealed outcome.
    pub fn seal_and_import_block_internally(
        &mut self,
        chain: &mut ChainClient,
        now: u64,
        block: ClosedBlock,
    ) -> (r: bool)
        requires
            old(self).wf(),
            old(chain).wf(),
            block.wf(),
            old(chain).best_number() < u64::MAX,
            now + old(self).options.reseal_max_period <= u64::MAX,
        ensures
            final(self).wf(),
            final(chain).wf(),
            Miner::pool_unchanged(*old(self), *final(self)),
            Miner::cfg_unchanged(*old(self), *final(self)),
            Miner::listeners_unchanged(*old(self), *final(self)),
            final(self).params_v() == old(self).params_v(),
            final(self).sealing.enabled == old(self).sealing.enabled,
            final(self).sealing.next_allowed_reseal == old(self).sealing.next_allowed_reseal,
            final(self).sealing.sealing_block_last_request
                == old(self).sealing.sealing_block_last_request,
            final(chain).included_seq().len() >= old(chain).included_seq().len(),
            ({
                let refuse = block@.transactions.len() == 0
                    && !old(self).forced_sealing_spec()
                    && now <= old(self).sealing.next_mandatory_reseal;
                let parent_known = exists|i: int|
                    0 <= i < old(chain).headers_seq().len()
                        && (#[trigger] old(chain).headers_seq()[i]).hash
                            == block@.header.parent_hash;
                if refuse || !parent_known {
                    &&& r == false
                    &&& Miner::sealing_unchanged(*old(self), *final(self))
                    &&& *final(chain) == *old(chain)
                } else {
                    match old(self).engine.kind {
                        EngineKind::InstantEngine => if block@.transactions.len() > 0 {
                            &&& final(self).sealing.next_mandatory_reseal
                                == now + old(self).options.reseal_max_period
                            &&& final(self).work() == old(self).work()
                            &&& final(self).sealing.queue.in_use()
                                == old(self).sealing.queue.in_use()
                            &&& r == true
                            &&& if block@.header.parent_hash == old(chain).best_hash()
                                && block@.header.number == old(chain).best_number() + 1 {
                                &&& final(chain).headers_seq()
                                    == old(chain).headers_seq().push(block@.header)
                                &&& final(chain).proposals_seq() == old(chain).proposals_seq()
                            } else {
                                *final(chain) == *old(chain)
                            }
                        } else {
                            &&& r == false
                            &&& Miner::sealing_unchanged(*old(self), *final(self))
                            &&& *final(chain) == *old(chain)
                        },
                        EngineKind::ProposalEngine => {
                            &&& r == true
                            &&& final(self).sealing.next_mandatory_reseal
                                == now + old(self).options.reseal_max_period
                            &&& final(self).work() == push_evict(
                                old(self).work(),
                                block@,
                                old(self).sealing.queue.cap(),
                            )
                            &&& final(self).sealing.queue.in_use()
                                == (final(self).work().len() > 0)
                            &&& final(chain).headers_seq() == old(chain).headers_seq()
                            &&& final(chain).proposals_seq()
                                == old(chain).proposals_seq().push(block@.header.hash)
                        },
                        _ => {
                            &&& r == false
                            &&& Miner::sealing_unchanged(*old(self), *final(self))
                            &&& *final(chain) == *old(chain)
                        },
                    }
                }
            }),
    {
        let no_txs = block.transactions.len() == 0;
        if no_txs && !self.forced_sealing() && now <= self.sealing.next_mandatory_reseal {
            return false;
        }

        let parent_header = match chain.block_header(block.header.parent_hash) {
            Some(hdr) => hdr,
            None => {
                return false;
            },
        };

        match self.engine.generate_seal(&block, &parent_header) {
            Seal::Proposal(seal) => {
                self.sealing.next_mandatory_reseal = now + self.options.reseal_max_period;
                self.sealing.queue.push(block.duplicate());
                self.sealing.queue.use_last();
                match self.engine.try_seal(&block, seal) {
                    Ok(sealed) => {
                        chain.broadcast_proposal_block(sealed);
                        true
                    },
                    Err(_) => false,
                }
            },
            Seal::Regular(seal) => {
                self.sealing.next_mandatory_reseal = now + self.options.reseal_max_period;
                match self.engine.try_seal(&block, seal) {
                    Ok(sealed) => chain.import_sealed_block(sealed).is_ok(),
                    Err(_) => false,
                }
            },
            Seal::NoSeal => false,
        }
    }

    /// Updates sealing if `requires_reseal` allows: assembles a
    /// candidate, aborts on the first-block fork guard, then seals
    /// internally or prepares external work according to the engine.
    pub fn update_sealing(&mut self, chain: &mut ChainClient, now: u64)
        requires
            old(self).wf(),
            old(chain).wf(),
            old(chain).best_number() < u64::MAX,
            now + old(self).options.reseal_min_period <= u64::MAX,
            now + old(self).options.reseal_max_period <= u64::MAX,
        ensures
            final(self).wf(),
            final(chain).wf(),
            Miner::cfg_unchanged(*old(self), *final(self)),
            final(self).params_v() == old(self).params_v(),
            final(self).sealing.sealing_block_last_request
                == old(self).sealing.sealing_block_last_request,
            ({
                let m = *old(self);
                let c = *old(chain);
                let best = c.best_number() as u64;
                let gate = m.sealing.enabled && m.sealing_should_continue(best);
                if !gate {
                    &&& *final(chain) == c
                    &&& Miner::pool_unchanged(m, *final(self))
                    &&& Miner::listeners_unchanged(m, *final(self))
                    &&& final(self).sealing.next_allowed_reseal
                        == m.sealing.next_allowed_reseal
                    &&& final(self).sealing.next_mandatory_reseal
                        == m.sealing.next_mandatory_reseal
                    &&& if !m.sealing.enabled {
                        Miner::sealing_unchanged(m, *final(self))
                    } else {
                        &&& !final(self).sealing.enabled
                        &&& final(self).work() == Seq::<ClosedBlockV>::empty()
                    }
                } else {
                    let d = m.prepared_drain(c);
                    let ah = m.assembled_header_spec(c);
                    let work_after_prepare = if m.reopen_case(c) {
                        m.work().drop_last()
                    } else {
                        m.work()
                    };
                    &&& final(self).sealing.enabled
                    &&& final(self).sealing.next_allowed_reseal
                        == now + m.options.reseal_min_period
                    &&& final(self).transaction_queue.contents() == m.pool_after_prepare(c)
                    &&& final(self).transaction_queue.opts() == m.transaction_queue.opts()
                    &&& final(self).transaction_queue.lims() == m.transaction_queue.lims()
                    &&& if ah.number == 1 && m.engine.params.bugfix_hard_fork {
                        &&& *final(chain) == c
                        &&& Miner::listeners_unchanged(m, *final(self))
                        &&& final(self).work() == work_after_prepare
                        &&& final(self).sealing.next_mandatory_reseal
                            == m.sealing.next_mandatory_reseal
                    } else {
                        match m.engine.kind {
                            EngineKind::WorkEngine => {
                                &&& final(chain).headers_seq() == c.headers_seq()
                                &&& final(chain).proposals_seq() == c.proposals_seq()
                                &&& final(self).sealing.next_mandatory_reseal
                                    == m.sealing.next_mandatory_reseal
                                &&& (m.options.work_queue_size > 0
                                    ==> final(self).work().len() > 0
                                        && final(self).work().last().header.hash == ah.hash)
                            },
                            EngineKind::InstantEngine => {
                                &&& Miner::listeners_unchanged(m, *final(self))
                                &&& final(self).work() == work_after_prepare
                                &&& (d.txs.len() > 0 && !m.reopen_case(c)
                                    ==> final(chain).headers_seq()
                                            == c.headers_seq().push(ah)
                                        && final(self).sealing.next_mandatory_reseal
                                            == now + m.options.reseal_max_period)
                                &&& (d.txs.len() == 0 ==> final(chain).headers_seq()
                                    == c.headers_seq())
                                &&& final(chain).proposals_seq() == c.proposals_seq()
                            },
                            EngineKind::RefusingEngine => {
                                &&& *final(chain) == c
                                &&& Miner::listeners_unchanged(m, *final(self))
                                &&& final(self).work() == work_after_prepare
                            },
                            EngineKind::ProposalEngine => {
                                &&& final(chain).headers_seq() == c.headers_seq()
                                &&& Miner::listeners_unchanged(m, *final(self))
                            },
                        }
                    }
                }
            }),
    {
        let ghost m = *old(self);
        let ghost c = *old(chain);
        let info = chain.chain_info();
        if self.requires_reseal(now, info.best_block_number) {
            proof {
                lemma_prepare_specs_stable(m, *self, c);
            }
            let ghost m1 = *self;
            let (block, original_work_hash) = self.prepare_block(chain);
            proof {
                assert(block@.header == m.assembled_header_spec(c));
            }
            if block.header.number == 1 && self.engine.engine_params().bugfix_hard_fork {
                return;
            }
            match self.engine.seals_internally() {
                Some(true) => {
                    let _sealed = self.seal_and_import_block_internally(chain, now, block);
                },
                Some(false) => {},
                None => {
                    self.prepare_work(block, original_work_hash);
                },
            }
        }
    }

    /// Lazily produces work for on-demand readers: when no candidate
    /// exists, sealing is enabled and a fresh one is prepared and
    /// announced; the last-request mark advances to the current best
    /// block. Returns whether fresh work was produced.
    pub fn prepare_work_sealing(&mut self, chain: &ChainClient) -> (r: bool)
        requires
            old(self).wf(),
            chain.wf(),
            chain.best_number() < u64::MAX,
        ensures
            final(self).wf(),
            r == (old(self).work().len() == 0),
            final(self).sealing.sealing_block_last_request == chain.best_number(),
            final(self).sealing.enabled == (old(self).sealing.enabled || r),
            final(self).sealing.next_allowed_reseal == old(self).sealing.next_allowed_reseal,
            final(self).sealing.next_mandatory_reseal
                == old(self).sealing.next_mandatory_reseal,
            Miner::cfg_unchanged(*old(self), *final(self)),
            final(self).params_v() == old(self).params_v(),
            !r ==> final(self).work() == old(self).work()
                && final(self).sealing.queue.in_use() == old(self).sealing.queue.in_use()
                && Miner::pool_unchanged(*old(self), *final(self))
                && Miner::listeners_unchanged(*old(self), *final(self)),
            r ==> ({
                let m = *old(self);
                let d = m.prepared_drain(*chain);
                let ah = m.assembled_header_spec(*chain);
                &&& final(self).transaction_queue.contents() == m.pool_after_prepare(*chain)
                &&& final(self).transaction_queue.opts() == m.transaction_queue.opts()
                &&& final(self).transaction_queue.lims() == m.transaction_queue.lims()
                &&& (m.options.work_queue_size > 0 ==> {
                    &&& final(self).work().len() > 0
                    &&& final(self).work().last().header == ah
                    &&& final(self).work().last().transactions == d.txs
                })
                &&& final(self).sealing.queue.in_use() == (m.listeners@.len() > 0
                    && final(self).work().len() > 0)
                &&& forall|i: int| 0 <= i < m.listeners_logs().len()
                    ==> final(self).listeners_logs()[i]
                        == m.listeners_logs()[i].push(WorkPackage {
                            pow_hash: ah.hash,
                            difficulty: ah.difficulty,
                            number: ah.number,
                        })
            }),
    {
        let ghost m = *old(self);
        let have_work = self.sealing.queue.len() > 0;
        if !have_work {
            self.sealing.enabled = true;
            proof {
                lemma_prepare_specs_stable(m, *self, *chain);
            }
            let (block, original_work_hash) = self.prepare_block(chain);
            proof {
                assert(block@.header == m.assembled_header_spec(*chain));
                assert(original_work_hash == Option::<u64>::None);
            }
            self.prepare_work(block, original_work_hash);
        }
        let best_number = chain.chain_info().best_block_number;
        if self.sealing.sealing_block_last_request != best_number {
            self.sealing.sealing_block_last_request = best_number;
        }
        !have_work
    }

    /// Ensures a pending candidate exists, then hands back a copy of it if
    /// it is fresher than the chain tip.
    pub fn map_pending_block(&mut self, chain: &ChainClient) -> (r: Option<ClosedBlock>)
        requires
            old(self).wf(),
            chain.wf(),
            chain.best_number() < u64::MAX,
        ensures
            final(self).wf(),
            r is Some <==> final(self).pending_fresh(chain.best_number() as u64),
            match r {
                Some(b) => b.wf() && b@ == final(self).work().last(),
                None => true,
            },
    {
        self.prepare_work_sealing(chain);
        let best_number = chain.chain_info().best_block_number;
        match self.sealing.queue.peek_last() {
            Some(b) => {
                if b.header.number > best_number {
                    Some(b.duplicate())
                } else {
                    None
                }
            },
            None => None,
        }
    }
}

impl Miner {
    /// Accepts an externally mined seal for a stored candidate. The
    /// candidate stays available for further seals only under the
    /// resubmission policy; an unknown hash, a bad seal and a refused
    /// import are reported apart.
    pub fn submit_seal(
        &mut self,
        chain: &mut ChainClient,
        block_hash: u64,
        seal: Vec<Vec<u8>>,
    ) -> (r: Result<(), Error>)
        requires
            old(self).wf(),
            old(chain).wf(),
            old(chain).best_number() < u64::MAX,
        ensures
            final(self).wf(),
            final(chain).wf(),
            Miner::pool_unchanged(*old(self), *final(self)),
            Miner::cfg_unchanged(*old(self), *final(self)),
            Miner::listeners_unchanged(*old(self), *final(self)),
            final(self).params_v() == old(self).params_v(),
            final(self).sealing.enabled == old(self).sealing.enabled,
            final(self).sealing.next_allowed_reseal == old(self).sealing.next_allowed_reseal,
            final(self).sealing.next_mandatory_reseal
                == old(self).sealing.next_mandatory_reseal,
            final(self).sealing.sealing_block_last_request
                == old(self).sealing.sealing_block_last_request,
            ({
                let q = old(self).work();
                let keep = old(self).options.enable_resubmission;
                let i = crate::work_queue::find_newest_with_hash(q, block_hash);
                if i == -1 {
                    &&& r == Result::<(), Error>::Err(Error::PowHashInvalid)
                    &&& final(self).work() == q
                    &&& final(self).sealing.queue.in_use() == old(self).sealing.queue.in_use()
                    &&& *final(chain) == *old(chain)
                } else {
                    &&& final(self).sealing.queue.in_use()
                    &&& final(self).work() == if keep {
                        q
                    } else {
                        q.remove(i)
                    }
                    &&& if seal@.len() != 0 {
                        r == Result::<(), Error>::Err(Error::PowInvalid)
                            && *final(chain) == *old(chain)
                    } else if q[i].header.parent_hash == old(chain).best_hash()
                        && q[i].header.number == old(chain).best_number() + 1 {
                        r == Result::<(), Error>::Ok(())
                            && final(chain).headers_seq()
                                == old(chain).headers_seq().push(q[i].header)
                            && final(chain).proposals_seq() == old(chain).proposals_seq()
                    } else if exists|j: int| 0 <= j < old(chain).headers_seq().len()
                        && (#[trigger] old(chain).headers_seq()[j]).hash
                            == q[i].header.parent_hash {
                        r == Result::<(), Error>::Ok(()) && *final(chain) == *old(chain)
                    } else {
                        r == Result::<(), Error>::Err(Error::Import)
                            && *final(chain) == *old(chain)
                    }
                }
            }),
    {
        let action = if self.options.enable_resubmission {
            GetAction::Clone
        } else {
            GetAction::Take
        };
        match self.sealing.queue.find_by_hash(block_hash, action) {
            Some(b) => {
                match self.engine.try_seal(&b, seal) {
                    Ok(sealed) => {
                        match chain.import_sealed_block(sealed) {
                            Ok(_) => Ok(()),
                            Err(e) => Err(e),
                        }
                    },
                    Err(_) => Err(Error::PowInvalid),
                }
            },
            None => Err(Error::PowHashInvalid),
        }
    }

    /// Hands the pool's recalibrated thresholds over: the pricer's minimum
    /// gas price, the given block gas limit, and the configured
    /// per-transaction cap.
    pub fn update_transaction_queue_limits(&mut self, block_gas_limit: u128)
        requires
            old(self).wf(),
        ensures
            final(self).wf(),
            final(self).transaction_queue.contents() == old(self).transaction_queue.contents(),
            final(self).transaction_queue.lims() == old(self).transaction_queue.lims(),
            final(self).transaction_queue.opts() == (crate::options::VerifierOptions {
                minimal_gas_price: old(self).gas_pricer.price,
                block_gas_limit,
                tx_gas_limit: old(self).options.pool_verification_options.tx_gas_limit,
            }),
            Miner::sealing_unchanged(*old(self), *final(self)),
            Miner::cfg_unchanged(*old(self), *final(self)),
            Miner::listeners_unchanged(*old(self), *final(self)),
            final(self).params_v() == old(self).params_v(),
    {
        let gas_price = self.gas_pricer.recalibrate();
        let mut options = self.options.pool_verification_options;
        options.minimal_gas_price = gas_price;
        options.block_gas_limit = block_gas_limit;
        self.transaction_queue.set_verifier_options(options);
    }

    /// Imports external transactions into the pool, yielding one result
    /// per transaction. A reseal follows only when something was offered,
    /// external-transaction resealing is on and the throttle has passed.
    pub fn import_external_transactions(
        &mut self,
        chain: &mut ChainClient,
        now: u64,
        transactions: Vec<Transaction>,
    ) -> (r: Vec<Result<(), TxError>>)
        requires
            old(self).wf(),
            old(chain).wf(),
            old(chain).best_number() < u64::MAX,
            now + old(self).options.reseal_min_period <= u64::MAX,
            now + old(self).options.reseal_max_period <= u64::MAX,
        ensures
            final(self).wf(),
            final(chain).wf(),
            Miner::cfg_unchanged(*old(self), *final(self)),
            final(self).params_v() == old(self).params_v(),
            ({
                let items = transactions@.map_values(|t: Transaction| PoolTx::Unverified(t));
                let imported = import_upto(
                    old(self).transaction_queue.contents(),
                    old(self).transaction_queue.lims(),
                    old(self).transaction_queue.opts(),
                    items,
                    items.len() as int,
                );
                let trigger = transactions@.len() > 0
                    && old(self).options.reseal_on_external_tx
                    && old(self).sealing.reseal_allowed_spec(now);
                &&& r@ == imported.1
                &&& !trigger ==> {
                    &&& final(self).transaction_queue.contents() == imported.0
                    &&& final(self).transaction_queue.opts()
                        == old(self).transaction_queue.opts()
                    &&& Miner::sealing_unchanged(*old(self), *final(self))
                    &&& Miner::listeners_unchanged(*old(self), *final(self))
                    &&& *final(chain) == *old(chain)
                }
            }),
    {
        let mut items: Vec<PoolTx> = Vec::new();
        let mut i: usize = 0;
        while i < transactions.len()
            invariant
                i <= transactions@.len(),
                items@ == transactions@.subrange(0, i as int).map_values(
                    |t: Transaction| PoolTx::Unverified(t),
                ),
            decreases transactions@.len() - i,
        {
            items.push(PoolTx::Unverified(transactions[i]));
            i = i + 1;
            proof {
                assert(items@ =~= transactions@.subrange(0, i as int).map_values(
                    |t: Transaction| PoolTx::Unverified(t),
                ));
            }
        }
        proof {
            assert(transactions@.subrange(0, transactions@.len() as int) =~= transactions@);
        }
        let results = self.transaction_queue.import(items);

        let trigger = results.len() > 0
            && self.options.reseal_on_external_tx
            && self.sealing.reseal_allowed(now);
        if trigger {
            self.update_sealing(chain, now);
        }
        results
    }

    /// Imports one local transaction. On success, with local-transaction
    /// resealing on and the throttle passed, fresh work is prepared on
    /// demand, or sealing is updated when the engine seals internally or
    /// work already existed.
    pub fn import_own_transaction(
        &mut self,
        chain: &mut ChainClient,
        now: u64,
        pending: PendingTransaction,
    ) -> (r: Result<(), TxError>)
        requires
            old(self).wf(),
            old(chain).wf(),
            old(chain).best_number() < u64::MAX,
            now + old(self).options.reseal_min_period <= u64::MAX,
            now + old(self).options.reseal_max_period <= u64::MAX,
        ensures
            final(self).wf(),
            final(chain).wf(),
            Miner::cfg_unchanged(*old(self), *final(self)),
            final(self).params_v() == old(self).params_v(),
            ({
                let verdict = crate::pool::import_verdict(
                    old(self).transaction_queue.contents(),
                    old(self).transaction_queue.lims(),
                    old(self).transaction_queue.opts(),
                    PoolTx::Local(pending),
                );
                let pool1 = match verdict {
                    Some(_) => old(self).transaction_queue.contents(),
                    None => old(self).transaction_queue.contents().push(QueuedTx {
                        tx: pending.transaction,
                        local: true,
                    }),
                };
                let trigger = verdict is None
                    && old(self).options.reseal_on_own_tx
                    && old(self).sealing.reseal_allowed_spec(now);
                &&& r == (match verdict {
                    Some(e) => Result::<(), TxError>::Err(e),
                    None => Result::<(), TxError>::Ok(()),
                })
                &&& !trigger ==> {
                    &&& final(self).transaction_queue.contents() == pool1
                    &&& final(self).transaction_queue.opts()
                        == old(self).transaction_queue.opts()
                    &&& Miner::sealing_unchanged(*old(self), *final(self))
                    &&& Miner::listeners_unchanged(*old(self), *final(self))
                    &&& *final(chain) == *old(chain)
                }
                &&& (trigger && seals_internally_spec(old(self).engine.kind) != Some(true))
                    ==> final(self).sealing.sealing_block_last_request
                        == old(chain).best_number()
            }),
    {
        let mut items: Vec<PoolTx> = Vec::new();
        items.push(PoolTx::Local(pending));
        proof {
            assert(items@ =~= Seq::<PoolTx>::empty().push(PoolTx::Local(pending)));
        }
        let ghost orig_pool = self.transaction_queue.contents();
        let ghost lims = self.transaction_queue.lims();
        let ghost opts = self.transaction_queue.opts();
        let mut results = self.transaction_queue.import(items);
        proof {
            assert(import_upto(orig_pool, lims, opts, items@, 0)
                == (orig_pool, Seq::<Result<(), TxError>>::empty()));
            assert(import_upto(orig_pool, lims, opts, items@, 1).1
                == Seq::<Result<(), TxError>>::empty().push(
                    match crate::pool::import_verdict(orig_pool, lims, opts, items@[0]) {
                        Some(e) => Result::<(), TxError>::Err(e),
                        None => Result::<(), TxError>::Ok(()),
                    },
                ));
        }
        let imported = match results.pop() {
            Some(res) => res,
            None => Err(TxError::Invalid),
        };

        if imported.is_ok() && self.options.reseal_on_own_tx && self.sealing.reseal_allowed(now) {
            let seals_internally = match self.engine.seals_internally() {
                Some(b) => b,
                None => false,
            };
            if seals_internally {
                self.update_sealing(chain, now);
            } else if !self.prepare_work_sealing(chain) {
                self.update_sealing(chain, now);
            }
        }

        imported
    }

    /// Reacts to newly imported chain blocks: recalibrates the pool's
    /// thresholds, returns retracted transactions to the pool, culls what
    /// the chain already includes, and reseals when blocks were enacted,
    /// or imported with uncle resealing on.
    pub fn chain_new_blocks(
        &mut self,
        chain: &mut ChainClient,
        now: u64,
        imported: &Vec<u64>,
        _invalid: &Vec<u64>,
        enacted: &Vec<u64>,
        retracted: &Vec<u64>,
    )
        requires
            old(self).wf(),
            old(chain).wf(),
            old(chain).best_number() < u64::MAX,
            now + old(self).options.reseal_min_period <= u64::MAX,
            now + old(self).options.reseal_max_period <= u64::MAX,
        ensures
            final(self).wf(),
            final(chain).wf(),
            Miner::cfg_unchanged(*old(self), *final(self)),
            final(self).params_v() == old(self).params_v(),
            final(self).transaction_queue.opts().minimal_gas_price
                == old(self).gas_pricer.price,
            final(self).transaction_queue.opts().block_gas_limit
                == old(chain).headers_seq().last().gas_limit,
            ({
                let trigger = enacted@.len() > 0
                    || (imported@.len() > 0 && old(self).options.reseal_on_uncle);
                (!trigger && retracted@.len() == 0) ==> {
                    &&& Miner::sealing_unchanged(*old(self), *final(self))
                    &&& Miner::listeners_unchanged(*old(self), *final(self))
                    &&& *final(chain) == *old(chain)
                    &&& final(self).transaction_queue.contents() == retained_upto(
                        old(self).transaction_queue.contents(),
                        old(chain).included_seq(),
                        old(self).transaction_queue.contents().len() as int,
                    )
                }
            }),
    {
        let gas_limit = chain.best_block_header().gas_limit;
        self.update_transaction_queue_limits(gas_limit);

        let mut k: usize = 0;
        while k < retracted.len()
            invariant
                k <= retracted@.len(),
                self.wf(),
                chain.wf(),
                chain.best_number() < u64::MAX,
                *chain == *old(chain),
                Miner::cfg_unchanged(*old(self), *self),
                self.params_v() == old(self).params_v(),
                Miner::sealing_unchanged(*old(self), *self),
                Miner::listeners_unchanged(*old(self), *self),
                self.transaction_queue.opts().minimal_gas_price == old(self).gas_pricer.price,
                self.transaction_queue.opts().block_gas_limit
                    == old(chain).headers_seq().last().gas_limit,
                self.transaction_queue.lims() == old(self).transaction_queue.lims(),
                retracted@.len() == 0 ==> self.transaction_queue.contents()
                    == old(self).transaction_queue.contents(),
            decreases retracted@.len() - k,
        {
            match chain.block_transactions(retracted[k]) {
                Some(txs) => {
                    let mut items: Vec<PoolTx> = Vec::new();
                    let mut j: usize = 0;
                    while j < txs.len()
                        invariant
                            j <= txs@.len(),
                            items@.len() == j,
                        decreases txs@.len() - j,
                    {
                        items.push(PoolTx::Retracted(txs[j]));
                        j = j + 1;
                    }
                    let _ = self.transaction_queue.import(items);
                },
                None => {},
            }
            k = k + 1;
        }

        let included = chain.included_transactions();
        self.transaction_queue.cull(&included);

        if enacted.len() > 0 || (imported.len() > 0 && self.options.reseal_on_uncle) {
            self.update_sealing(chain, now);
        }
    }
}

/// First position in `txs` holding hash `h` among the first `n` entries,
/// or -1.
pub open spec fn first_hash_upto(txs: Seq<Transaction>, h: u64, n: int) -> int
    decreases n,
{
    if n <= 0 {
        -1
    } else {
        let p = first_hash_upto(txs, h, n - 1);
        if p >= 0 {
            p
        } else if txs[n - 1].hash == h {
            n - 1
        } else {
            -1
        }
    }
}

/// Once found, the first position does not move as the prefix grows.
pub proof fn lemma_first_hash_stable(txs: Seq<Transaction>, h: u64, m: int, n: int)
    requires
        0 <= m <= n <= txs.len(),
        first_hash_upto(txs, h, m) >= 0,
    ensures
        first_hash_upto(txs, h, n) == first_hash_upto(txs, h, m),
    decreases n - m,
{
    if m < n {
        lemma_first_hash_stable(txs, h, m, n - 1);
    }
}

impl Miner {
    /// A copy of the authoring parameters.
    pub fn authoring_params(&self) -> (r: AuthoringParams)
        ensures
            (r.author, r.gas_range_target, r.extra_data@) == self.params_v(),
    {
        self.params.duplicate()
    }

    /// Sets the gas-limit range targeted by future assemblies.
    pub fn set_gas_range_target(&mut self, gas_range_target: (u128, u128))
        requires
            old(self).wf(),
        ensures
            final(self).wf(),
            final(self).params_v() == (old(self).params.author, gas_range_target,
                old(self).params.extra_data@),
            Miner::sealing_unchanged(*old(self), *final(self)),
            Miner::pool_unchanged(*old(self), *final(self)),
            Miner::cfg_unchanged(*old(self), *final(self)),
            Miner::listeners_unchanged(*old(self), *final(self)),
    {
        self.params.gas_range_target = gas_range_target;
    }

    /// Sets the extra data placed in future headers.
    pub fn set_extra_data(&mut self, extra_data: Vec<u8>)
        requires
            old(self).wf(),
        ensures
            final(self).wf(),
            final(self).params_v() == (old(self).params.author,
                old(self).params.gas_range_target, extra_data@),
            Miner::sealing_unchanged(*old(self), *final(self)),
            Miner::pool_unchanged(*old(self), *final(self)),
            Miner::cfg_unchanged(*old(self), *final(self)),
            Miner::listeners_unchanged(*old(self), *final(self)),
    {
        self.params.extra_data = extra_data;
    }

    /// Sets the author. When the engine seals internally the address must
    /// sign through the account provider: without a provider the request
    /// fails as not found, with a wrong password as invalid; on success
    /// sealing is enabled and the engine learns the signer.
    pub fn set_author(&mut self, address: u64, password: Option<u64>) -> (r: Result<
        (),
        AccountError,
    >)
        requires
            old(self).wf(),
        ensures
            final(self).wf(),
            final(self).params_v() == (address, old(self).params.gas_range_target,
                old(self).params.extra_data@),
            Miner::pool_unchanged(*old(self), *final(self)),
            Miner::listeners_unchanged(*old(self), *final(self)),
            final(self).work() == old(self).work(),
            final(self).options == old(self).options,
            final(self).accounts_v() == old(self).accounts_v(),
            ({
                let given = match password {
                    Some(p) => p,
                    None => 0u64,
                };
                if seals_internally_spec(old(self).engine.kind) is None {
                    &&& r == Result::<(), AccountError>::Ok(())
                    &&& final(self).engine == old(self).engine
                    &&& final(self).sealing.enabled == old(self).sealing.enabled
                } else {
                    match old(self).accounts {
                        None => {
                            &&& r == Result::<(), AccountError>::Err(AccountError::NotFound)
                            &&& final(self).engine == old(self).engine
                            &&& final(self).sealing.enabled == old(self).sealing.enabled
                        },
                        Some(ap) => match ap.stored_password(address) {
                            None => {
                                &&& r == Result::<(), AccountError>::Err(AccountError::NotFound)
                                &&& final(self).engine == old(self).engine
                                &&& final(self).sealing.enabled == old(self).sealing.enabled
                            },
                            Some(stored) => if given == stored {
                                &&& r == Result::<(), AccountError>::Ok(())
                                &&& final(self).sealing.enabled
                                &&& final(self).engine.signer
                                    == Some(crate::engine::Signer { address, password: given })
                                &&& final(self).engine.kind == old(self).engine.kind
                                &&& final(self).engine.params == old(self).engine.params
                            } else {
                                &&& r == Result::<(), AccountError>::Err(
                                    AccountError::InvalidPassword,
                                )
                                &&& final(self).engine == old(self).engine
                                &&& final(self).sealing.enabled == old(self).sealing.enabled
                            },
                        },
                    }
                }
            }),
    {
        self.params.author = address;

        if self.engine.seals_internally().is_some() {
            let sign_result: Option<Result<(), AccountError>> = match &self.accounts {
                Some(ap) => Some(ap.sign(address, password)),
                None => None,
            };
            match sign_result {
                None => Err(AccountError::NotFound),
                Some(Err(e)) => Err(e),
                Some(Ok(_)) => {
                    let given = match password {
                        Some(p) => p,
                        None => 0,
                    };
                    self.sealing.enabled = true;
                    self.engine.set_signer(address, given);
                    Ok(())
                },
            }
        } else {
            Ok(())
        }
    }

    /// A gas price a tenth above the pool's current minimum.
    pub fn sensible_gas_price(&self) -> (r: u128)
        requires
            self.transaction_queue.opts().minimal_gas_price <= u128::MAX / 110,
        ensures
            r == self.transaction_queue.opts().minimal_gas_price * 110 / 100,
    {
        self.transaction_queue.current_worst_gas_price() * 110 / 100
    }

    /// A fifth of the lower gas target.
    pub fn sensible_gas_limit(&self) -> (r: u128)
        ensures
            r == self.params.gas_range_target.0 / 5,
    {
        self.params.gas_range_target.0 / 5
    }

    /// This layer defines no future-transaction set.
    pub fn future_transactions(&self) -> (r: Result<Vec<Transaction>, Error>)
        ensures
            r == Result::<Vec<Transaction>, Error>::Err(Error::NotSupported),
    {
        Err(Error::NotSupported)
    }

    /// The highest pooled nonce of `address`, if the pool holds any of its
    /// transactions.
    pub fn last_nonce(&self, address: u64) -> (r: Option<u64>)
        ensures
            match r {
                Some(n) => {
                    &&& exists|i: int| 0 <= i < self.transaction_queue.contents().len()
                        && (#[trigger] self.transaction_queue.contents()[i]).tx.sender == address
                        && self.transaction_queue.contents()[i].tx.nonce == n
                    &&& forall|i: int| 0 <= i < self.transaction_queue.contents().len()
                        && (#[trigger] self.transaction_queue.contents()[i]).tx.sender == address
                        ==> self.transaction_queue.contents()[i].tx.nonce <= n
                },
                None => forall|i: int| 0 <= i < self.transaction_queue.contents().len()
                    ==> (#[trigger] self.transaction_queue.contents()[i]).tx.sender != address,
            },
    {
        self.transaction_queue.last_nonce(address)
    }

    /// The transactions a caller may act on against the given best block:
    /// the pool snapshot in queue mode; in sealing mode the newest
    /// candidate's transactions, empty unless it is fresher than that
    /// block.
    pub fn ready_transactions(&self, best_block: u64) -> (r: Vec<Transaction>)
        requires
            self.wf(),
        ensures
            match self.options.pending_set {
                PendingSet::AlwaysQueue => r@ == snapshot_upto(
                    self.transaction_queue.contents(),
                    None,
                    self.transaction_queue.contents().len() as int,
                ),
                PendingSet::AlwaysSealing => r@ == if self.pending_fresh(best_block) {
                    self.work().last().transactions
                } else {
                    Seq::<Transaction>::empty()
                },
            },
    {
        match self.options.pending_set {
            PendingSet::AlwaysQueue => self.transaction_queue.pending(best_block, 0, None),
            PendingSet::AlwaysSealing => {
                match self.sealing.queue.peek_last() {
                    Some(b) => {
                        if b.header.number > best_block {
                            clone_vec(&b.transactions)
                        } else {
                            Vec::new()
                        }
                    },
                    None => Vec::new(),
                }
            },
        }
    }

    /// Looks a pending transaction up by hash, in the set selected by the
    /// pending-set mode.
    pub fn transaction(&self, best_block: u64, hash: u64) -> (r: Option<Transaction>)
        requires
            self.wf(),
        ensures
            match self.options.pending_set {
                PendingSet::AlwaysQueue => match r {
                    Some(t) => {
                        &&& t.hash == hash
                        &&& has_pool_hash(self.transaction_queue.contents(), hash)
                        &&& forall|i: int| 0 <= i < self.transaction_queue.contents().len()
                            && (#[trigger] self.transaction_queue.contents()[i]).tx.hash == hash
                            ==> self.transaction_queue.contents()[i].tx == t
                    },
                    None => !has_pool_hash(self.transaction_queue.contents(), hash),
                },
                PendingSet::AlwaysSealing => {
                    if !self.pending_fresh(best_block) {
                        r is None
                    } else {
                        let txs = self.work().last().transactions;
                        let i = first_hash_upto(txs, hash, txs.len() as int);
                        if i >= 0 {
                            r == Some(txs[i])
                        } else {
                            r is None
                        }
                    }
                },
            },
    {
        match self.options.pending_set {
            PendingSet::AlwaysQueue => self.transaction_queue.find(hash),
            PendingSet::AlwaysSealing => {
                match self.sealing.queue.peek_last() {
                    Some(b) => {
                        if b.header.number > best_block {
                            let ghost txs = b.transactions@;
                            let mut i: usize = 0;
                            while i < b.transactions.len()
                                invariant
                                    i <= txs.len(),
                                    txs == b.transactions@,
                                    self.work().len() > 0,
                                    b@ == self.work().last(),
                                    b.header.number > best_block,
                                    self.options.pending_set == PendingSet::AlwaysSealing,
                                    first_hash_upto(txs, hash, i as int) == -1,
                                decreases txs.len() - i,
                            {
                                if b.transactions[i].hash == hash {
                                    proof {
                                        lemma_first_hash_stable(txs, hash, i as int + 1,
                                            txs.len() as int);
                                    }
                                    return Some(b.transactions[i]);
                                }
                                i = i + 1;
                            }
                            None
                        } else {
                            None
                        }
                    },
                    None => None,
                }
            },
        }
    }

    /// The transactions of the newest candidate, even a stale one; empty
    /// when no candidate exists. The best-block argument scopes the query
    /// for callers; the candidate set itself does not depend on it.
    pub fn pending_transactions(&self, _best_block: u64) -> (r: Option<Vec<Transaction>>)
        requires
            self.wf(),
        ensures
            r is Some,
            match r {
                Some(v) => v@ == if self.work().len() > 0 {
                    self.work().last().transactions
                } else {
                    Seq::<Transaction>::empty()
                },
                None => false,
            },
    {
        match self.sealing.queue.peek_last() {
            Some(b) => Some(clone_vec(&b.transactions)),
            None => Some(Vec::new()),
        }
    }

    /// The receipt of one pending transaction, enriched, if the newest
    /// candidate is fresher than the chain tip and holds the transaction.
    pub fn pending_receipt(&self, best_block: u64, hash: u64) -> (r: Option<RichReceipt>)
        requires
            self.wf(),
        ensures
            ({
                if !self.pending_fresh(best_block) {
                    r is None
                } else {
                    let txs = self.work().last().transactions;
                    let receipts = self.work().last().receipts;
                    let i = first_hash_upto(txs, hash, txs.len() as int);
                    if i >= 0 {
                        r == Some(RichReceipt {
                            transaction_hash: hash,
                            transaction_index: i as usize,
                            cumulative_gas_used: receipts[i].gas_used,
                            gas_used: txs[i].gas,
                            contract_address: if txs[i].creates_contract {
                                Some(contract_address_spec(txs[i].sender, txs[i].nonce))
                            } else {
                                None
                            },
                        })
                    } else {
                        r is None
                    }
                }
            }),
    {
        match self.sealing.queue.peek_last() {
            Some(b) => {
                if b.header.number > best_block {
                    let ghost txs = b.transactions@;
                    let mut i: usize = 0;
                    while i < b.transactions.len()
                        invariant
                            i <= txs.len(),
                            txs == b.transactions@,
                            b.wf(),
                            self.work().len() > 0,
                            b@ == self.work().last(),
                            b.header.number > best_block,
                            first_hash_upto(txs, hash, i as int) == -1,
                        decreases txs.len() - i,
                    {
                        if b.transactions[i].hash == hash {
                            proof {
                                lemma_first_hash_stable(txs, hash, i as int + 1,
                                    txs.len() as int);
                            }
                            let tx = b.transactions[i];
                            proof {
                                assert(b.receipts@[i as int].gas_used
                                    == crate::block::prefix_gas(txs, i as int + 1));
                                if i > 0 {
                                    assert(b.receipts@[i as int - 1].gas_used
                                        == crate::block::prefix_gas(txs, i as int));
                                }
                                assert(crate::block::prefix_gas(txs, i as int + 1)
                                    == crate::block::prefix_gas(txs, i as int)
                                        + txs[i as int].gas);
                                assert(crate::block::prefix_gas(txs, 0) == 0);
                            }
                            let cumulative = b.receipts[i].gas_used;
                            let prev_gas: u128 = if i == 0 {
                                0
                            } else {
                                b.receipts[i - 1].gas_used
                            };
                            let contract = if tx.creates_contract {
                                Some(contract_address(tx.sender, tx.nonce))
                            } else {
                                None
                            };
                            return Some(RichReceipt {
                                transaction_hash: hash,
                                transaction_index: i,
                                cumulative_gas_used: cumulative,
                                gas_used: cumulative - prev_gas,
                                contract_address: contract,
                            });
                        }
                        i = i + 1;
                    }
                    None
                } else {
                    None
                }
            },
            None => None,
        }
    }

    /// All pending receipts, keyed by transaction hash, when the newest
    /// candidate is fresher than the chain tip; empty otherwise. A stale
    /// candidate yields nothing: the chain itself is not consulted here.
    pub fn pending_receipts(&self, best_block: u64) -> (r: Option<Vec<(u64, Receipt)>>)
        requires
            self.wf(),
        ensures
            r is Some,
            match r {
                Some(v) => {
                    if self.pending_fresh(best_block) {
                        &&& v@.len() == self.work().last().transactions.len()
                        &&& forall|i: int| 0 <= i < v@.len()
                            ==> #[trigger] v@[i]
                                == (self.work().last().transactions[i].hash,
                                    self.work().last().receipts[i])
                    } else {
                        v@.len() == 0
                    }
                },
                None => false,
            },
    {
        match self.sealing.queue.peek_last() {
            Some(b) => {
                if b.header.number > best_block {
                    let mut v: Vec<(u64, Receipt)> = Vec::new();
                    let mut i: usize = 0;
                    while i < b.transactions.len()
                        invariant
                            i <= b.transactions@.len(),
                            b.wf(),
                            v@.len() == i,
                            forall|j: int| 0 <= j < i
                                ==> #[trigger] v@[j]
                                    == (b.transactions@[j].hash, b.receipts@[j]),
                        decreases b.transactions@.len() - i,
                    {
                        v.push((b.transactions[i].hash, b.receipts[i]));
                        i = i + 1;
                    }
                    Some(v)
                } else {
                    Some(Vec::new())
                }
            },
            None => Some(Vec::new()),
        }
    }

    /// Root of the newest candidate's post-execution state, if it is
    /// fresher than the chain tip.
    pub fn pending_state(&self, latest_block_number: u64) -> (r: Option<u64>)
        requires
            self.wf(),
        ensures
            r is Some <==> self.pending_fresh(latest_block_number),
            match r {
                Some(root) => root == self.work().last().state_root,
                None => true,
            },
    {
        match self.sealing.queue.peek_last() {
            Some(b) => {
                if b.header.number > latest_block_number {
                    Some(b.state_root)
                } else {
                    None
                }
            },
            None => None,
        }
    }

    /// A copy of the newest candidate as a base block, if it is fresher
    /// than the chain tip.
    pub fn pending_block(&self, latest_block_number: u64) -> (r: Option<Block>)
        requires
            self.wf(),
        ensures
            r is Some <==> self.pending_fresh(latest_block_number),
            match r {
                Some(b) => b.header@ == self.work().last().header
                    && b.transactions@ == self.work().last().transactions,
                None => true,
            },
    {
        match self.sealing.queue.peek_last() {
            Some(b) => {
                if b.header.number > latest_block_number {
                    Some(b.to_base())
                } else {
                    None
                }
            },
            None => None,
        }
    }

    /// A copy of the newest candidate's header, if it is fresher than the
    /// chain tip.
    pub fn pending_block_header(&self, latest_block_number: u64) -> (r: Option<Header>)
        requires
            self.wf(),
        ensures
            r is Some <==> self.pending_fresh(latest_block_number),
            match r {
                Some(h) => h@ == self.work().last().header,
                None => true,
            },
    {
        match self.sealing.queue.peek_last() {
            Some(b) => {
                if b.header.number > latest_block_number {
                    Some(b.header.duplicate())
                } else {
                    None
                }
            },
            None => None,
        }
    }

    /// Whether some consumer requested the stored work.
    pub fn is_currently_sealing(&self) -> (r: bool)
        ensures
            r == self.sealing.queue.in_use(),
    {
        self.sealing.queue.is_in_use()
    }

    /// True exactly when the engine solicits external work.
    pub fn can_produce_work_package(&self) -> (r: bool)
        ensures
            r == (seals_internally_spec(self.engine.kind) is None),
    {
        self.engine.seals_internally().is_none()
    }
}

/// Assembly plans depend only on the work history, the pool contents, the
/// authoring parameters, the configuration and the engine; two controller
/// states that agree on those plan the same block.
pub proof fn lemma_prepare_specs_stable(a: Miner, b: Miner, c: ChainClient)
    requires
        b.work() == a.work(),
        b.sealing.queue.cap() == a.sealing.queue.cap(),
        b.transaction_queue.contents() == a.transaction_queue.contents(),
        b.transaction_queue.opts() == a.transaction_queue.opts(),
        b.transaction_queue.lims() == a.transaction_queue.lims(),
        b.params_v() == a.params_v(),
        b.options == a.options,
        b.engine == a.engine,
    ensures
        b.reopen_case(c) == a.reopen_case(c),
        b.base_header_spec(c) == a.base_header_spec(c),
        b.base_txs_spec(c) == a.base_txs_spec(c),
        b.pending_snapshot_spec(c) == a.pending_snapshot_spec(c),
        b.prepared_drain(c) == a.prepared_drain(c),
        b.assembled_header_spec(c) == a.assembled_header_spec(c),
        b.snapshot_hash_spec() == a.snapshot_hash_spec(),
        b.pool_after_prepare(c) == a.pool_after_prepare(c),
{
    assert(b.params.author == a.params.author);
    assert(b.params.gas_range_target == a.params.gas_range_target);
    assert(b.params.extra_data@ == a.params.extra_data@);
    assert(b.fresh_header_spec(c) =~= a.fresh_header_spec(c));
    assert(b.base_header_spec(c) =~= a.base_header_spec(c));
    assert(b.assembled_header_spec(c) =~= a.assembled_header_spec(c));
}

} // verus!
