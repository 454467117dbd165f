//! Scenarios for the sealing policies: the reseal throttle, the mandatory
//! cadence, the sleep gate, the resubmission policy and the first-block
//! fork guard.

use sealer::chain::ChainClient;
use sealer::engine::{ChainSpec, Engine, EngineKind, EngineParams};
use sealer::miner::{GasPricer, Miner};
use sealer::options::{MinerOptions, PendingSet, VerifierOptions};
use sealer::types::{Error, Transaction};

fn tx(hash: u64, sender: u64) -> Transaction {
    Transaction {
        hash,
        sender,
        nonce: 0,
        gas: 21_000,
        gas_price: 0,
        creates_contract: false,
        chain_id: 2,
        service: false,
        well_formed: true,
    }
}

fn forced_external_miner() -> Miner {
    Miner::new(
        MinerOptions {
            force_sealing: true,
            reseal_on_external_tx: true,
            reseal_min_period: 5_000,
            pending_set: PendingSet::AlwaysSealing,
            pool_verification_options: VerifierOptions {
                minimal_gas_price: 0,
                block_gas_limit: u128::MAX,
                tx_gas_limit: u128::MAX,
            },
            ..MinerOptions::default()
        },
        GasPricer::new_fixed(0),
        &ChainSpec::new_test(),
        None,
        0,
    )
}

#[test]
fn reseal_throttle_holds_between_transaction_triggers() {
    let mut client = ChainClient::new();
    let mut miner = forced_external_miner();

    // the first trigger reseals and re-arms the throttle to 1 + 5000
    miner.import_external_transactions(&mut client, 1, vec![tx(1, 1)]);
    assert_eq!(miner.pending_transactions(0).unwrap().len(), 1);

    // a second trigger within the period does not reseal
    miner.import_external_transactions(&mut client, 2_000, vec![tx(2, 2)]);
    assert_eq!(miner.pending_transactions(0).unwrap().len(), 1);

    // past the period the trigger reseals and both transactions enter
    miner.import_external_transactions(&mut client, 6_000, vec![tx(3, 3)]);
    assert_eq!(miner.pending_transactions(0).unwrap().len(), 3);
}

#[test]
fn mandatory_cadence_limits_empty_internal_seals() {
    let spec = ChainSpec { engine: Engine::new(EngineKind::ProposalEngine), chain_id: 2 };
    let mut miner = Miner::new_for_tests(&spec, None, 0);
    let mut client = ChainClient::new();
    // the mandatory deadline starts one maximum period (two minutes) out

    let empty = client.prepare_open_block(0, (0, 0), vec![]).close();
    let again = client.prepare_open_block(0, (0, 0), vec![]).close();
    let third = client.prepare_open_block(0, (0, 0), vec![]).close();

    // an empty candidate before the deadline is refused
    assert!(!miner.seal_and_import_block_internally(&mut client, 5, empty));
    assert_eq!(client.proposal_count(), 0);

    // past the deadline it is sealed, and the deadline moves a full period
    assert!(miner.seal_and_import_block_internally(&mut client, 120_001, again));
    assert_eq!(client.proposal_count(), 1);

    // the next empty candidate waits for the new deadline
    assert!(!miner.seal_and_import_block_internally(&mut client, 130_000, third));
    assert_eq!(client.proposal_count(), 1);
}

#[test]
fn sealer_sleeps_when_nothing_keeps_it_awake() {
    let mut client = ChainClient::new();
    let mut miner = Miner::new(
        MinerOptions {
            pending_set: PendingSet::AlwaysSealing,
            pool_verification_options: VerifierOptions {
                minimal_gas_price: 0,
                block_gas_limit: u128::MAX,
                tx_gas_limit: u128::MAX,
            },
            ..MinerOptions::default()
        },
        GasPricer::new_fixed(0),
        &ChainSpec::new_test(),
        None,
        0,
    );
    // an external transaction and a work request wake the sealer up
    miner.import_external_transactions(&mut client, 1, vec![tx(1, 1)]);
    assert!(miner.prepare_work_sealing(&client));
    assert_eq!(miner.pending_transactions(0).unwrap().len(), 1);

    // within five blocks of the request the sealer stays awake
    assert!(miner.requires_reseal(2, 5));

    // more than five blocks later, with no other reason to stay awake,
    // it sleeps and drops its work history
    assert!(!miner.requires_reseal(3, 7));
    assert_eq!(miner.pending_transactions(0).unwrap().len(), 0);
    assert!(!miner.requires_reseal(4, 7));
}

#[test]
fn resubmission_policy_decides_the_second_seal() {
    // with resubmission on, two seals for the same candidate both land
    let mut client = ChainClient::new();
    let mut miner = Miner::new_for_tests(&ChainSpec::new_test(), None, 0);
    let hash = miner.map_pending_block(&client).unwrap().header.hash;
    assert_eq!(miner.submit_seal(&mut client, hash, vec![]), Ok(()));
    assert_eq!(miner.submit_seal(&mut client, hash, vec![]), Ok(()));

    // with resubmission off, the second submission no longer finds it
    let mut client2 = ChainClient::new();
    let mut strict = Miner::new(
        MinerOptions {
            enable_resubmission: false,
            pool_verification_options: VerifierOptions {
                minimal_gas_price: 0,
                block_gas_limit: u128::MAX,
                tx_gas_limit: u128::MAX,
            },
            ..MinerOptions::default()
        },
        GasPricer::new_fixed(0),
        &ChainSpec::new_test(),
        None,
        0,
    );
    let hash2 = strict.map_pending_block(&client2).unwrap().header.hash;
    assert_eq!(strict.submit_seal(&mut client2, hash2, vec![]), Ok(()));
    assert_eq!(strict.submit_seal(&mut client2, hash2, vec![]), Err(Error::PowHashInvalid));
}

#[test]
fn first_block_fork_guard_stops_the_seal() {
    let engine = Engine {
        kind: EngineKind::InstantEngine,
        params: EngineParams { bugfix_hard_fork: true, ..EngineParams::default() },
        signer: None,
    };
    let spec = ChainSpec { engine, chain_id: 2 };
    let mut miner = Miner::new_for_tests(&spec, None, 0);
    let mut client = ChainClient::new();

    miner.import_external_transactions(&mut client, 1, vec![tx(1, 1)]);
    miner.update_sealing(&mut client, 1);

    // block number one is never sealed under a default-on bug-fix fork
    assert_eq!(client.chain_info().best_block_number, 0);
    assert_eq!(client.proposal_count(), 0);
    assert!(miner.pending_block(0).is_none());
}

#[test]
fn infinite_pending_block_lifts_the_gas_budget() {
    let mut client = ChainClient::new();
    let mut miner = Miner::new(
        MinerOptions {
            pending_set: PendingSet::AlwaysSealing,
            infinite_pending_block: true,
            pool_verification_options: VerifierOptions {
                minimal_gas_price: 0,
                block_gas_limit: u128::MAX,
                tx_gas_limit: u128::MAX,
            },
            ..MinerOptions::default()
        },
        GasPricer::new_fixed(0),
        &ChainSpec::new_test(),
        None,
        0,
    );
    // far beyond the chain's own block gas limit
    let big = Transaction { gas: 50_000_000, ..tx(1, 1) };
    miner.import_external_transactions(&mut client, 1, vec![big]);
    assert!(miner.prepare_work_sealing(&client));
    let header = miner.pending_block_header(0).unwrap();
    assert_eq!(header.gas_limit, u128::MAX);
    assert_eq!(miner.pending_transactions(0).unwrap().len(), 1);
}
