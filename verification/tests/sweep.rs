use sweepr::address::create_address;
use sweepr::errors::PerWalletError;
use sweepr::fee::FeeEstimates;
use sweepr::network::Network;
use sweepr::sweep::{apply_sign_outcome, build_sweep};
use sweepr::sync::{check_balance, collect_sync_results, filter_funded, SyncOutcome, SyncResult};
use sweepr::wallet::create_wallet;

fn synced(template_index: usize, confirmed: u64, unconfirmed: u64) -> SyncResult {
    SyncResult { template_index, confirmed, unconfirmed, ok: true }
}

fn testnet_destination() -> sweepr::address::Address {
    create_address("mipcBbFg9gMiCh81Kj8tqqdgoZub1ZJRfn", Network::Testnet).unwrap()
}

#[test]
fn test_fee_rate_default_target() {
    // the default target is the next block
    let estimates = FeeEstimates::new(vec![(1, 25), (3, 12), (6, 5)]);
    assert_eq!(estimates.fee_rate(None).unwrap(), 25);
}

#[test]
fn test_fee_rate_explicit_target() {
    let estimates = FeeEstimates::new(vec![(1, 25), (3, 12), (6, 5)]);
    assert_eq!(estimates.fee_rate(Some(6)).unwrap(), 5);
}

#[test]
fn test_fee_rate_unavailable() {
    // a snapshot without the resolved target yields no synthetic fallback
    let estimates = FeeEstimates::new(vec![(3, 12), (6, 5)]);
    assert_eq!(estimates.fee_rate(None).unwrap_err(), PerWalletError::FeeUnavailable);
    assert_eq!(estimates.fee_rate(Some(2)).unwrap_err(), PerWalletError::FeeUnavailable);
    let empty = FeeEstimates::new(vec![]);
    assert_eq!(empty.fee_rate(Some(1)).unwrap_err(), PerWalletError::FeeUnavailable);
}

#[test]
fn test_check_balance() {
    assert!(check_balance(&synced(0, 1, 0)));
    assert!(!check_balance(&synced(0, 0, 700)));
    let failed = SyncResult { template_index: 0, confirmed: 9, unconfirmed: 0, ok: false };
    assert!(!check_balance(&failed));
}

#[test]
fn test_collect_sync_results_order_and_isolation() {
    let wallets = vec![
        create_wallet("m/44'/0'/0'/", 0, Network::Testnet).unwrap(),
        create_wallet("m/49'/0'/0'/", 1, Network::Testnet).unwrap(),
        create_wallet("m/84'/0'/0'/", 2, Network::Testnet).unwrap(),
    ];
    let outcomes = vec![
        SyncOutcome::Synced { confirmed: 700, unconfirmed: 3 },
        SyncOutcome::Failed,
        SyncOutcome::Synced { confirmed: 0, unconfirmed: 9 },
    ];
    let results = collect_sync_results(&wallets, &outcomes);
    assert_eq!(results.len(), 3);
    // output order equals input order, and one failure disturbs nothing else
    assert_eq!(results[0], synced(0, 700, 3));
    assert_eq!(results[1], SyncResult { template_index: 1, confirmed: 0, unconfirmed: 0, ok: false });
    assert_eq!(results[2], synced(2, 0, 9));
}

#[test]
fn test_filter_funded() {
    let results = vec![
        synced(0, 700, 0),
        synced(1, 0, 900),
        SyncResult { template_index: 2, confirmed: 5, unconfirmed: 0, ok: false },
        synced(3, 1, 1),
    ];
    let funded = filter_funded(&results);
    // exactly the confirmed-funded wallets, in input order
    assert_eq!(funded.len(), 2);
    assert_eq!(funded[0], results[0]);
    assert_eq!(funded[1], results[3]);
}

#[test]
fn test_filter_funded_empty() {
    assert_eq!(filter_funded(&vec![]).len(), 0);
    assert_eq!(filter_funded(&vec![synced(0, 0, 0)]).len(), 0);
}

#[test]
fn test_build_sweep_exact_output() {
    // balance B and resolved fee F: exactly one output of value B - F
    let wallet = synced(3, 50_000, 0);
    let tx = build_sweep(&wallet, testnet_destination(), 5, 110).unwrap();
    assert_eq!(tx.output_value, 50_000 - 550);
    assert_eq!(tx.fee, 550);
    assert_eq!(tx.template_index, 3);
    assert!(tx.rbf);
    assert!(!tx.finalized);
}

#[test]
fn test_build_sweep_fee_swallows_balance() {
    // B - F <= 0 raises TxBuildError instead of an invalid output
    let wallet = synced(0, 500, 0);
    let err = build_sweep(&wallet, testnet_destination(), 5, 100).unwrap_err();
    assert_eq!(err, PerWalletError::TxBuildError);
    let err = build_sweep(&wallet, testnet_destination(), 5, 101).unwrap_err();
    assert_eq!(err, PerWalletError::TxBuildError);
    // an unfunded wallet always lands there (defensive; the filter runs first)
    let empty = synced(0, 0, 0);
    let err = build_sweep(&empty, testnet_destination(), 1, 1).unwrap_err();
    assert_eq!(err, PerWalletError::TxBuildError);
}

#[test]
fn test_build_sweep_fee_overflow() {
    let wallet = synced(0, u64::MAX, 0);
    let err = build_sweep(&wallet, testnet_destination(), u64::MAX, 2).unwrap_err();
    assert_eq!(err, PerWalletError::TxBuildError);
}

#[test]
fn test_apply_sign_outcome() {
    let wallet = synced(0, 10_000, 0);
    let tx = build_sweep(&wallet, testnet_destination(), 2, 120).unwrap();
    let fee = tx.fee;
    let signed = apply_sign_outcome(tx, true).unwrap();
    assert!(signed.finalized);
    assert_eq!(signed.fee, fee);
    assert_eq!(signed.output_value, 10_000 - 240);

    let tx = build_sweep(&wallet, testnet_destination(), 2, 120).unwrap();
    let err = apply_sign_outcome(tx, false).unwrap_err();
    assert_eq!(err, PerWalletError::SignError);
}
