//! Component-level tests: pool rules, work history, assembly
//! classification, engine and account boundaries.

use sealer::accounts::AccountProvider;
use sealer::block::{ClosedBlock, Header};
use sealer::chain::ChainClient;
use sealer::engine::{contract_address, ChainSpec, Engine, EngineKind, EngineParams};
use sealer::miner::{GasPricer, Miner, WorkListener};
use sealer::options::{MinerOptions, PendingSet, PoolLimits, VerifierOptions};
use sealer::pool::{PoolTx, TransactionQueue};
use sealer::types::{Error, PendingTransaction, Transaction, TxError};
use sealer::work_queue::WorkQueue;

fn tx(hash: u64, sender: u64, nonce: u64, gas: u128, gas_price: u128) -> Transaction {
    Transaction {
        hash,
        sender,
        nonce,
        gas,
        gas_price,
        creates_contract: false,
        chain_id: 2,
        service: false,
        well_formed: true,
    }
}

fn empty_candidate(parent_hash: u64, number: u64, hash: u64) -> ClosedBlock {
    ClosedBlock {
        header: Header {
            number,
            parent_hash,
            hash,
            author: 0,
            difficulty: 1_000,
            gas_limit: 10_000_000,
            gas_used: 0,
            timestamp: 0,
            extra_data: vec![],
        },
        transactions: vec![],
        receipts: vec![],
        state_root: 0,
    }
}

#[test]
fn default_options_match_the_documented_configuration() {
    let o = MinerOptions::default();
    assert!(!o.force_sealing);
    assert!(!o.reseal_on_external_tx);
    assert!(o.reseal_on_own_tx);
    assert!(!o.reseal_on_uncle);
    assert_eq!(o.reseal_min_period, 2_000);
    assert_eq!(o.reseal_max_period, 120_000);
    assert_eq!(o.pending_set, PendingSet::AlwaysQueue);
    assert_eq!(o.work_queue_size, 20);
    assert!(o.enable_resubmission);
    assert!(!o.infinite_pending_block);
    assert!(!o.refuse_service_transactions);
    assert_eq!(o.pool_limits.max_count, 16_384);
    assert_eq!(o.pool_limits.max_per_sender, 64);
    assert_eq!(o.pool_limits.max_mem_usage, 8 * 1024 * 1024);
    assert_eq!(o.pool_verification_options.minimal_gas_price, 20_000_000_000);
    assert_eq!(o.pool_verification_options.block_gas_limit, u128::MAX);
    assert_eq!(o.pool_verification_options.tx_gas_limit, u128::MAX);
}

#[test]
fn work_history_never_outgrows_its_capacity() {
    let mut q = WorkQueue::new(2);
    q.push(empty_candidate(1, 1, 10));
    q.push(empty_candidate(1, 1, 11));
    q.push(empty_candidate(1, 1, 12));
    assert_eq!(q.len(), 2);
    // the oldest entry was evicted; the newest survives
    assert_eq!(q.peek_last().unwrap().header.hash, 12);
    q.reset();
    assert_eq!(q.len(), 0);
    assert!(!q.is_in_use());
}

#[test]
fn pool_rejects_duplicates_and_bad_prices() {
    let mut pool = TransactionQueue::new(
        PoolLimits { max_count: 2, max_per_sender: 64, max_mem_usage: 1 << 20 },
        VerifierOptions { minimal_gas_price: 10, block_gas_limit: u128::MAX, tx_gas_limit: 200_000 },
    );
    // below the minimum price from the network: refused
    let r = pool.import(vec![PoolTx::Unverified(tx(1, 1, 0, 21_000, 5))]);
    assert_eq!(r, vec![Err(TxError::InsufficientGasPrice)]);
    // the same price locally: accepted
    let r = pool.import(vec![PoolTx::Local(PendingTransaction::new(tx(1, 1, 0, 21_000, 5), None))]);
    assert_eq!(r, vec![Ok(())]);
    // the same hash again: already imported
    let r = pool.import(vec![PoolTx::Unverified(tx(1, 1, 0, 21_000, 50))]);
    assert_eq!(r, vec![Err(TxError::AlreadyImported)]);
    // over the per-transaction gas cap
    let r = pool.import(vec![PoolTx::Unverified(tx(2, 2, 0, 300_000, 50))]);
    assert_eq!(r, vec![Err(TxError::GasLimitExceeded)]);
    // malformed
    let mut bad = tx(3, 3, 0, 21_000, 50);
    bad.well_formed = false;
    let r = pool.import(vec![PoolTx::Unverified(bad)]);
    assert_eq!(r, vec![Err(TxError::Invalid)]);
    // a retracted transaction skips the price check
    let r = pool.import(vec![PoolTx::Retracted(tx(4, 4, 0, 21_000, 1))]);
    assert_eq!(r, vec![Ok(())]);
    // the pool is now full
    let r = pool.import(vec![PoolTx::Unverified(tx(5, 5, 0, 21_000, 50))]);
    assert_eq!(r, vec![Err(TxError::LimitReached)]);

    assert!(pool.has_local_transactions());
    assert_eq!(pool.find(1).unwrap().sender, 1);
    assert!(pool.find(99).is_none());
    assert_eq!(pool.last_nonce(4), Some(0));
    assert_eq!(pool.last_nonce(99), None);
    pool.remove(&vec![1], true);
    assert!(pool.find(1).is_none());
    assert!(!pool.has_local_transactions());
}

#[test]
fn assembly_classifies_failures() {
    // a candidate is built from three pooled transactions: one fits, one
    // asks for more gas than the whole block and is invalidated, one has a
    // future nonce and is skipped silently
    let mut client = ChainClient::new();
    let mut miner = Miner::new(
        MinerOptions {
            pending_set: PendingSet::AlwaysSealing,
            pool_verification_options: VerifierOptions {
                minimal_gas_price: 0,
                block_gas_limit: u128::MAX,
                tx_gas_limit: u128::MAX,
            },
            ..MinerOptions::default()
        },
        GasPricer::new_fixed(0),
        &ChainSpec::new_test(),
        None,
        0,
    );
    let fits = tx(1, 1, 0, 100_000, 0);
    let too_big = tx(2, 2, 0, 20_000_000, 0);
    let future_nonce = tx(3, 3, 7, 100_000, 0);
    let rs = miner.import_external_transactions(
        &mut client,
        1,
        vec![fits, too_big, future_nonce],
    );
    assert_eq!(rs, vec![Ok(()), Ok(()), Ok(())]);

    assert!(miner.prepare_work_sealing(&client));
    let pending = miner.pending_transactions(0).unwrap();
    assert_eq!(pending.len(), 1);
    assert_eq!(pending[0].hash, 1);
    // the oversized transaction was dropped from the pool as invalid
    assert!(miner.transaction_queue.find(2).is_none());
    // the future-nonce transaction stays pooled for the next block
    assert!(miner.transaction_queue.find(3).is_some());
}

#[test]
fn refused_service_transactions_leave_the_pool_quietly() {
    let mut client = ChainClient::new();
    let mut miner = Miner::new(
        MinerOptions {
            pending_set: PendingSet::AlwaysSealing,
            refuse_service_transactions: true,
            pool_verification_options: VerifierOptions {
                minimal_gas_price: 0,
                block_gas_limit: u128::MAX,
                tx_gas_limit: u128::MAX,
            },
            ..MinerOptions::default()
        },
        GasPricer::new_fixed(0),
        &ChainSpec::new_test(),
        None,
        0,
    );
    let mut service = tx(9, 9, 0, 21_000, 0);
    service.service = true;
    let rs = miner.import_external_transactions(&mut client, 1, vec![service]);
    assert_eq!(rs, vec![Ok(())]);
    assert!(miner.prepare_work_sealing(&client));
    // not in the candidate, and no longer pooled
    assert_eq!(miner.pending_transactions(0).unwrap().len(), 0);
    assert!(miner.transaction_queue.find(9).is_none());
}

#[test]
fn submit_seal_reports_each_failure_apart() {
    let mut client = ChainClient::new();
    let mut miner = Miner::new_for_tests(&ChainSpec::new_test(), None, 0);
    let hash = miner.map_pending_block(&client).unwrap().header.hash;

    // unknown hash
    assert_eq!(miner.submit_seal(&mut client, hash + 1, vec![]), Err(Error::PowHashInvalid));
    // a seal with fields the engine does not expect
    assert_eq!(
        miner.submit_seal(&mut client, hash, vec![vec![1u8]]),
        Err(Error::PowInvalid),
    );
    // a well-formed seal
    assert_eq!(miner.submit_seal(&mut client, hash, vec![]), Ok(()));
    assert_eq!(client.chain_info().best_block_number, 1);
}

#[test]
fn pending_receipt_carries_the_execution_summary() {
    let mut client = ChainClient::new();
    let mut miner = Miner::new(
        MinerOptions {
            pending_set: PendingSet::AlwaysSealing,
            pool_verification_options: VerifierOptions {
                minimal_gas_price: 0,
                block_gas_limit: u128::MAX,
                tx_gas_limit: u128::MAX,
            },
            ..MinerOptions::default()
        },
        GasPricer::new_fixed(0),
        &ChainSpec::new_test(),
        None,
        0,
    );
    let mut create = tx(21, 77, 0, 90_000, 0);
    create.creates_contract = true;
    let call = tx(22, 78, 0, 60_000, 0);
    miner.import_external_transactions(&mut client, 1, vec![create, call]);
    assert!(miner.prepare_work_sealing(&client));

    let first = miner.pending_receipt(0, 21).unwrap();
    assert_eq!(first.transaction_index, 0);
    assert_eq!(first.cumulative_gas_used, 90_000);
    assert_eq!(first.gas_used, 90_000);
    assert_eq!(first.contract_address, Some(contract_address(77, 0)));

    let second = miner.pending_receipt(0, 22).unwrap();
    assert_eq!(second.transaction_index, 1);
    assert_eq!(second.cumulative_gas_used, 150_000);
    assert_eq!(second.gas_used, 60_000);
    assert_eq!(second.contract_address, None);

    assert!(miner.pending_receipt(0, 99).is_none());

    let all = miner.pending_receipts(0).unwrap();
    assert_eq!(all.len(), 2);
    assert_eq!(all[0].0, 21);
    assert_eq!(all[1].1.gas_used, 150_000);
}

#[test]
fn listeners_hear_of_new_work_and_mark_it_used() {
    let mut client = ChainClient::new();
    let mut miner = Miner::new_for_tests(&ChainSpec::new_test(), None, 0);
    miner.add_work_listener(WorkListener::new());
    assert!(!miner.is_currently_sealing());

    miner.import_external_transactions(&mut client, 1, vec![tx(31, 31, 0, 21_000, 0)]);
    assert!(miner.prepare_work_sealing(&client));

    let header = miner.pending_block_header(0).unwrap();
    assert_eq!(miner.listeners[0].notified.len(), 1);
    assert_eq!(miner.listeners[0].notified[0].pow_hash, header.hash);
    assert_eq!(miner.listeners[0].notified[0].number, 1);
    assert_eq!(miner.listeners[0].notified[0].difficulty, header.difficulty);
    assert!(miner.is_currently_sealing());
}

#[test]
fn signer_needs_matching_credentials() {
    let mut provider = AccountProvider::transient_provider();
    let addr = provider.insert_account(42, 7).unwrap();
    let mut miner = Miner::new(
        MinerOptions::default(),
        GasPricer::new_fixed(0),
        &ChainSpec::new_instant(),
        Some(provider),
        0,
    );
    assert_eq!(
        miner.set_author(addr, Some(8)),
        Err(sealer::types::AccountError::InvalidPassword),
    );
    assert_eq!(miner.set_author(addr, Some(7)), Ok(()));
    assert_eq!(
        miner.engine.signer,
        Some(sealer::engine::Signer { address: addr, password: 7 }),
    );
    // an engine sealing by external work needs no signer at all
    let mut external = Miner::new_for_tests(&ChainSpec::new_test(), None, 0);
    assert_eq!(external.set_author(5, None), Ok(()));
}

#[test]
fn gas_pricing_helpers_follow_their_formulas() {
    let mut miner = Miner::new(
        MinerOptions {
            pool_verification_options: VerifierOptions {
                minimal_gas_price: 100,
                block_gas_limit: u128::MAX,
                tx_gas_limit: u128::MAX,
            },
            ..MinerOptions::default()
        },
        GasPricer::new_fixed(100),
        &ChainSpec::new_test(),
        None,
        0,
    );
    assert_eq!(miner.sensible_gas_price(), 110);
    miner.set_gas_range_target((25, 50));
    assert_eq!(miner.sensible_gas_limit(), 5);
    assert!(matches!(miner.future_transactions(), Err(Error::NotSupported)));
    assert_eq!(miner.last_nonce(12), None);
}

#[test]
fn chain_events_recalibrate_and_cull_the_pool() {
    let spec = ChainSpec::new_instant();
    let mut miner = Miner::new_for_tests(&spec, None, 0);
    let mut client = ChainClient::new();
    miner.import_external_transactions(&mut client, 1, vec![tx(51, 51, 0, 21_000, 0)]);
    miner.update_sealing(&mut client, 1);
    assert_eq!(client.chain_info().best_block_number, 1);
    // the transaction was included but the pool still holds it
    assert_eq!(miner.transaction_queue.len(), 1);

    let best = client.chain_info().best_block_hash;
    miner.chain_new_blocks(&mut client, 2, &vec![], &vec![], &vec![best], &vec![]);
    // culled after the chain event
    assert_eq!(miner.transaction_queue.len(), 0);
    assert_eq!(miner.transaction_queue.current_worst_gas_price(), 0);
}

#[test]
fn engine_disciplines_answer_for_themselves() {
    assert_eq!(Engine::new(EngineKind::WorkEngine).seals_internally(), None);
    assert_eq!(Engine::new(EngineKind::InstantEngine).seals_internally(), Some(true));
    assert_eq!(Engine::new(EngineKind::RefusingEngine).seals_internally(), Some(false));
    assert_eq!(Engine::new(EngineKind::ProposalEngine).seals_internally(), Some(true));
    assert_eq!(Engine::new(EngineKind::WorkEngine).engine_params(), EngineParams::default());

    let mut miner = Miner::new_for_tests(&ChainSpec::new_test(), None, 0);
    assert!(miner.can_produce_work_package());
    let mut internal = Miner::new_for_tests(&ChainSpec::new_instant(), None, 0);
    assert!(!internal.can_produce_work_package());
    miner.clear();
    internal.clear();
}
