//! End-to-end scenarios of the sealing controller against the in-memory
//! chain. Instants are millisecond words chosen by each test.

use sealer::accounts::AccountProvider;
use sealer::chain::ChainClient;
use sealer::engine::ChainSpec;
use sealer::miner::{GasPricer, Miner};
use sealer::options::{MinerOptions, PendingSet, PoolLimits, VerifierOptions};
use sealer::types::{AccountError, PendingTransaction, Transaction};

fn miner() -> Miner {
    Miner::new(
        MinerOptions {
            force_sealing: false,
            reseal_on_external_tx: false,
            reseal_on_own_tx: true,
            reseal_on_uncle: false,
            reseal_min_period: 5_000,
            reseal_max_period: 120_000,
            pending_set: PendingSet::AlwaysSealing,
            work_queue_size: 5,
            enable_resubmission: true,
            infinite_pending_block: false,
            refuse_service_transactions: false,
            pool_limits: PoolLimits::default(),
            pool_verification_options: VerifierOptions {
                minimal_gas_price: 0,
                block_gas_limit: u128::MAX,
                tx_gas_limit: u128::MAX,
            },
        },
        GasPricer::new_fixed(0),
        &ChainSpec::new_test(),
        None,
        0,
    )
}

fn transaction() -> Transaction {
    transaction_with_chain_id(2)
}

fn transaction_with_chain_id(chain_id: u64) -> Transaction {
    Transaction {
        hash: 7_001,
        sender: 501,
        nonce: 0,
        gas: 100_000,
        gas_price: 0,
        creates_contract: true,
        chain_id,
        service: false,
        well_formed: true,
    }
}

fn second_transaction_with_chain_id(chain_id: u64) -> Transaction {
    Transaction {
        hash: 7_002,
        sender: 502,
        nonce: 0,
        gas: 100_000,
        gas_price: 0,
        creates_contract: true,
        chain_id,
        service: false,
        well_formed: true,
    }
}

#[test]
fn should_prepare_block_to_seal() {
    // given
    let client = ChainClient::new();
    let mut miner = Miner::new_for_tests(&ChainSpec::new_test(), None, 0);

    // when
    let sealing_work = miner.map_pending_block(&client);
    assert!(sealing_work.is_some(), "Expected closed block");
}

#[test]
fn should_still_work_after_a_couple_of_blocks() {
    // given
    let mut client = ChainClient::new();
    let mut miner = Miner::new_for_tests(&ChainSpec::new_test(), None, 0);

    let res = miner.map_pending_block(&client).map(|b| b.header.hash);
    assert!(res.is_some());
    assert!(miner.submit_seal(&mut client, res.unwrap(), vec![]).is_ok());

    // two more blocks mined, work requested.
    client.add_blocks(1);
    miner.map_pending_block(&client);

    client.add_blocks(1);
    miner.map_pending_block(&client);

    // solution to original work submitted.
    assert!(miner.submit_seal(&mut client, res.unwrap(), vec![]).is_ok());
}

#[test]
fn should_make_pending_block_when_importing_own_transaction() {
    // given
    let mut client = ChainClient::new();
    let mut miner = miner();
    let transaction = transaction();
    let best_block = 0;
    // when
    let res = miner.import_own_transaction(
        &mut client,
        1,
        PendingTransaction::new(transaction, None),
    );

    // then
    assert_eq!(res.unwrap(), ());
    assert_eq!(miner.pending_transactions(best_block).unwrap().len(), 1);
    assert_eq!(miner.pending_receipts(best_block).unwrap().len(), 1);
    assert_eq!(miner.ready_transactions(best_block).len(), 1);
    // This method will let us know if pending block was created (before calling that method)
    assert!(!miner.prepare_work_sealing(&client));
}

#[test]
fn should_not_use_pending_block_if_best_block_is_higher() {
    // given
    let mut client = ChainClient::new();
    let mut miner = miner();
    let transaction = transaction();
    let best_block = 10;
    // when
    let res = miner.import_own_transaction(
        &mut client,
        1,
        PendingTransaction::new(transaction, None),
    );

    // then
    assert_eq!(res.unwrap(), ());
    assert_eq!(miner.pending_transactions(best_block).unwrap().len(), 1);
    assert_eq!(miner.pending_receipts(best_block).unwrap().len(), 0);
    assert_eq!(miner.ready_transactions(best_block).len(), 0);
}

#[test]
fn should_import_external_transaction() {
    // given
    let mut client = ChainClient::new();
    let mut miner = miner();
    let transaction = transaction();
    let best_block = 0;
    // when
    let res = miner
        .import_external_transactions(&mut client, 1, vec![transaction])
        .pop()
        .unwrap();

    // then
    assert_eq!(res.unwrap(), ());
    assert_eq!(miner.pending_transactions(best_block).unwrap().len(), 0);
    assert_eq!(miner.pending_receipts(best_block).unwrap().len(), 0);
    // This method will let us know if pending block was created (before calling that method)
    assert!(miner.prepare_work_sealing(&client));
    assert_eq!(miner.ready_transactions(best_block).len(), 1);
}

#[test]
fn should_not_seal_unless_enabled() {
    let mut miner = miner();
    let mut client = ChainClient::new();
    // By default resealing is not required.
    assert!(!miner.requires_reseal(1, 1));

    miner
        .import_external_transactions(&mut client, 2, vec![transaction()])
        .pop()
        .unwrap()
        .unwrap();
    assert!(miner.prepare_work_sealing(&client));
    // Unless asked to prepare work.
    assert!(miner.requires_reseal(3, 1));
}

#[test]
fn internal_seals_without_work() {
    let spec = ChainSpec::new_instant();
    let mut miner = Miner::new_for_tests(&spec, None, 0);

    let mut client = ChainClient::new();
    client.add_blocks(2);

    let import = miner
        .import_external_transactions(
            &mut client,
            1,
            vec![transaction_with_chain_id(spec.chain_id)],
        )
        .pop()
        .unwrap();
    assert_eq!(import.unwrap(), ());

    miner.update_sealing(&mut client, 1);
    assert!(miner.pending_block(0).is_none());
    assert_eq!(client.chain_info().best_block_number, 3);

    assert!(miner
        .import_own_transaction(
            &mut client,
            2,
            PendingTransaction::new(second_transaction_with_chain_id(spec.chain_id), None),
        )
        .is_ok());

    miner.update_sealing(&mut client, 3);
    assert!(miner.pending_block(0).is_none());
    assert_eq!(client.chain_info().best_block_number, 4);
}

#[test]
fn should_fail_setting_engine_signer_without_account_provider() {
    let mut tap = AccountProvider::transient_provider();
    let addr = tap.insert_account(1, 0).unwrap();
    let mut miner = Miner::new_for_tests(&ChainSpec::new_instant(), None, 0);
    assert!(match miner.set_author(addr, Some(0)) {
        Err(AccountError::NotFound) => true,
        _ => false,
    });
}
