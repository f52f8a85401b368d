use sweepr::address::create_address;
use sweepr::errors::PerWalletError;
use sweepr::fee::FeeEstimates;
use sweepr::network::{create_network, Network};
use sweepr::pipeline::{advance, failure_event, initial_stages, run_succeeded, WalletEvent, WalletStage};
use sweepr::sweep::{apply_sign_outcome, build_sweep};
use sweepr::sync::{collect_sync_results, filter_funded, SyncOutcome};
use sweepr::wallet::create_wallet;

#[test]
fn test_initial_stages() {
    let stages = initial_stages(11);
    assert_eq!(stages.len(), 11);
    assert!(stages.iter().all(|s| *s == WalletStage::Created));
}

#[test]
fn test_stage_machine_happy_path() {
    let mut stage = WalletStage::Created;
    stage = advance(stage, WalletEvent::SyncCompleted { confirmed: 50_000, unconfirmed: 0 });
    assert_eq!(stage, WalletStage::Synced { confirmed: 50_000, unconfirmed: 0 });
    stage = advance(stage, WalletEvent::BalanceChecked);
    assert_eq!(stage, WalletStage::Funded { confirmed: 50_000 });
    stage = advance(stage, WalletEvent::Signed { output_value: 49_450, fee: 550 });
    assert_eq!(stage, WalletStage::Signed { output_value: 49_450, fee: 550 });
    stage = advance(stage, WalletEvent::Broadcasted);
    assert_eq!(stage, WalletStage::Broadcast);
}

#[test]
fn test_stage_machine_empty_wallet() {
    let stage = advance(
        advance(WalletStage::Created, WalletEvent::SyncCompleted { confirmed: 0, unconfirmed: 800 }),
        WalletEvent::BalanceChecked,
    );
    // unconfirmed-only value does not make a wallet funded
    assert_eq!(stage, WalletStage::Empty);
}

#[test]
fn test_stage_machine_terminal_absorbs() {
    for terminal in [
        WalletStage::SyncFailed,
        WalletStage::Empty,
        WalletStage::BuildFailed,
        WalletStage::Broadcast,
        WalletStage::BroadcastFailed,
    ] {
        let after = advance(terminal, WalletEvent::SyncCompleted { confirmed: 5, unconfirmed: 5 });
        assert_eq!(after, terminal);
        let after = advance(terminal, WalletEvent::Broadcasted);
        assert_eq!(after, terminal);
    }
}

#[test]
fn test_stage_machine_ignores_misplaced_event() {
    let stage = advance(WalletStage::Created, WalletEvent::Broadcasted);
    assert_eq!(stage, WalletStage::Created);
}

#[test]
fn test_failure_events() {
    assert_eq!(failure_event(PerWalletError::SyncError), WalletEvent::SyncFailed);
    assert_eq!(failure_event(PerWalletError::BroadcastError), WalletEvent::BroadcastFailed);
    assert_eq!(failure_event(PerWalletError::InvalidDescriptor), WalletEvent::BuildFailed);
    assert_eq!(failure_event(PerWalletError::FeeUnavailable), WalletEvent::BuildFailed);
    assert_eq!(failure_event(PerWalletError::TxBuildError), WalletEvent::BuildFailed);
    assert_eq!(failure_event(PerWalletError::SignError), WalletEvent::BuildFailed);
}

#[test]
fn test_run_succeeded() {
    assert!(run_succeeded(&vec![]));
    assert!(run_succeeded(&vec![WalletStage::Broadcast, WalletStage::Empty]));
    assert!(!run_succeeded(&vec![WalletStage::Broadcast, WalletStage::SyncFailed]));
    assert!(!run_succeeded(&vec![WalletStage::BuildFailed]));
    assert!(!run_succeeded(&vec![WalletStage::BroadcastFailed, WalletStage::Empty]));
    // a wallet left mid-pipeline is an incomplete sweep
    assert!(!run_succeeded(&vec![WalletStage::Funded { confirmed: 5 }]));
}

#[test]
fn test_end_to_end_regtest_sweep() {
    // seed: the all-zero test phrase; network: regtest; one template
    let phrase =
        "abandon abandon abandon abandon abandon abandon abandon abandon abandon abandon abandon cactus";
    let seed = sweepr::bip39::parse_mnemonic(phrase).unwrap();
    assert_eq!(seed.phrase(), phrase);

    let network = create_network("regtest").unwrap();
    assert_eq!(network, Network::Regtest);

    let wallet = create_wallet("m/84'/0'/0'/", 0, network).unwrap();
    let wallets = vec![wallet];

    // one pre-existing confirmed UTXO of 50,000 satoshis
    let outcomes = vec![SyncOutcome::Synced { confirmed: 50_000, unconfirmed: 0 }];
    let results = collect_sync_results(&wallets, &outcomes);
    let funded = filter_funded(&results);
    assert_eq!(funded.len(), 1);
    assert_eq!(funded[0].confirmed, 50_000);

    let estimates = FeeEstimates::new(vec![(1, 5)]);
    let fee_rate = estimates.fee_rate(None).unwrap();
    assert_eq!(fee_rate, 5);

    // a legacy destination, valid on regtest
    let destination =
        create_address("mipcBbFg9gMiCh81Kj8tqqdgoZub1ZJRfn", Network::Regtest).unwrap();

    let vsize = 110;
    let tx = build_sweep(&funded[0], destination, fee_rate, vsize).unwrap();
    assert_eq!(tx.output_value, 50_000 - 5 * vsize);
    assert!(tx.rbf);
    let signed = apply_sign_outcome(tx, true).unwrap();
    assert!(signed.finalized);

    // the local provider accepts the broadcast; the run concludes cleanly
    let mut stage = WalletStage::Created;
    stage = advance(stage, WalletEvent::SyncCompleted { confirmed: 50_000, unconfirmed: 0 });
    stage = advance(stage, WalletEvent::BalanceChecked);
    stage = advance(
        stage,
        WalletEvent::Signed { output_value: signed.output_value, fee: signed.fee },
    );
    stage = advance(stage, WalletEvent::Broadcasted);
    assert_eq!(stage, WalletStage::Broadcast);
    assert!(run_succeeded(&vec![stage]));
}

#[test]
fn test_default_config() {
    let config = sweepr::config::Config::default();
    assert_eq!(config.stop_gap, 5);
    assert_eq!(config.parallel_requests, 5);
    assert!(config.fee_target.is_none());
}
