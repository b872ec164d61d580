use guarded_transfer::address::parse_address;
use guarded_transfer::errors::TransferError;
use guarded_transfer::intent::TransferIntent;
use guarded_transfer::workflow::Action;
use guarded_transfer::workflow::ChainEvent;
use guarded_transfer::workflow::Outcome;
use guarded_transfer::workflow::Phase;
use guarded_transfer::workflow::TxStatus;
use guarded_transfer::workflow::Workflow;

fn test_intent(amount: u128) -> TransferIntent {
    let recipient = parse_address(&b"0x3f1f78ED98Cd180794f1346F5bD379D5Ec47DE90".to_vec()).unwrap();
    TransferIntent::new(recipient, amount).unwrap()
}

fn failure_error(wf: &Workflow) -> TransferError {
    match &wf.phase {
        Phase::Finished { outcome } => outcome.error().expect("finished without an error"),
        _ => panic!("workflow is not finished"),
    }
}

#[test]
fn underfunded_transfer_fails_without_estimate_or_broadcast() {
    let (wf, first) = Workflow::start(&test_intent(100));
    assert!(matches!(first, Action::QueryChainId));
    let (wf, a) = wf.step(ChainEvent::ChainId { id: 421614 });
    assert!(matches!(a, Action::QueryBalances));
    let (wf, a) = wf.step(ChainEvent::Balances { sender: 99, recipient: 0 });
    assert!(matches!(a, Action::Stop));
    assert_eq!(failure_error(&wf), TransferError::InsufficientFunds);
}

#[test]
fn missing_base_fee_is_fee_data_unavailable() {
    let (wf, _) = Workflow::start(&test_intent(10));
    let (wf, _) = wf.step(ChainEvent::ChainId { id: 1 });
    let (wf, _) = wf.step(ChainEvent::Balances { sender: 1_000_000, recipient: 0 });
    let (wf, a) = wf.step(ChainEvent::LatestBaseFee { base_fee: None });
    assert!(matches!(a, Action::Stop));
    assert_eq!(failure_error(&wf), TransferError::FeeDataUnavailable);
}

#[test]
fn failed_query_is_connection_error() {
    let (wf, _) = Workflow::start(&test_intent(10));
    let (wf, a) = wf.step(ChainEvent::QueryFailed);
    assert!(matches!(a, Action::Stop));
    assert_eq!(failure_error(&wf), TransferError::ConnectionError);
}

#[test]
fn failed_estimate_is_estimation_failed() {
    let (wf, _) = Workflow::start(&test_intent(10));
    let (wf, _) = wf.step(ChainEvent::ChainId { id: 1 });
    let (wf, _) = wf.step(ChainEvent::Balances { sender: 1_000_000, recipient: 0 });
    let (wf, _) = wf.step(ChainEvent::LatestBaseFee { base_fee: Some(10) });
    let (wf, a) = wf.step(ChainEvent::FeeSuggestion { max_fee: 12, tip: 2 });
    assert!(matches!(a, Action::EstimateGas { .. }));
    let (wf, a) = wf.step(ChainEvent::GasEstimate { gas: None });
    assert!(matches!(a, Action::Stop));
    assert_eq!(failure_error(&wf), TransferError::EstimationFailed);
}

#[test]
fn worst_case_cost_over_balance_fails_before_broadcast() {
    // Balance 100 covers the amount 10, but not 10 + 21000 * 1.
    let (wf, _) = Workflow::start(&test_intent(10));
    let (wf, _) = wf.step(ChainEvent::ChainId { id: 1 });
    let (wf, _) = wf.step(ChainEvent::Balances { sender: 100, recipient: 0 });
    let (wf, _) = wf.step(ChainEvent::LatestBaseFee { base_fee: Some(0) });
    let (wf, a) = wf.step(ChainEvent::FeeSuggestion { max_fee: 1, tip: 0 });
    // max(1, 0 + 0) with the margin stays 1.
    let draft = match a {
        Action::EstimateGas { draft } => draft,
        _ => panic!("expected a gas estimate request"),
    };
    assert_eq!(draft.max_fee_per_gas, 1);
    // An estimate of 17500 yields the gas limit 21000.
    let (wf, a) = wf.step(ChainEvent::GasEstimate { gas: Some(17500) });
    assert!(matches!(a, Action::Stop));
    assert_eq!(failure_error(&wf), TransferError::InsufficientFundsForGas);
}

#[test]
fn rejected_broadcast_is_submission_failed() {
    let (wf, _) = Workflow::start(&test_intent(1000));
    let (wf, _) = wf.step(ChainEvent::ChainId { id: 1 });
    let (wf, _) = wf.step(ChainEvent::Balances { sender: u128::MAX, recipient: 0 });
    let (wf, _) = wf.step(ChainEvent::LatestBaseFee { base_fee: Some(10) });
    let (wf, _) = wf.step(ChainEvent::FeeSuggestion { max_fee: 11, tip: 2 });
    let (wf, a) = wf.step(ChainEvent::GasEstimate { gas: Some(21000) });
    assert!(matches!(a, Action::Broadcast { .. }));
    let (wf, a) = wf.step(ChainEvent::BroadcastResult { hash: None });
    assert!(matches!(a, Action::Stop));
    assert_eq!(failure_error(&wf), TransferError::SubmissionFailed);
}

#[test]
fn full_run_reaches_broadcast_and_confirmation() {
    // base 10, tip 2, suggested 11: 11 < 12, so the cap is 12 with the
    // margin, 14.  An estimate of 21000 gives the limit 25200.
    let (wf, _) = Workflow::start(&test_intent(1000));
    let (wf, _) = wf.step(ChainEvent::ChainId { id: 421614 });
    let (wf, _) = wf.step(ChainEvent::Balances { sender: 1_000_000_000, recipient: 7 });
    let (wf, _) = wf.step(ChainEvent::LatestBaseFee { base_fee: Some(10) });
    let (wf, a) = wf.step(ChainEvent::FeeSuggestion { max_fee: 11, tip: 2 });
    let draft = match a {
        Action::EstimateGas { draft } => draft,
        _ => panic!("expected a gas estimate request"),
    };
    assert_eq!(draft.chain_id, 421614);
    assert_eq!(draft.amount, 1000);
    assert_eq!(draft.max_fee_per_gas, 14);
    assert_eq!(draft.max_priority_fee_per_gas, 2);
    let (wf, a) = wf.step(ChainEvent::GasEstimate { gas: Some(21000) });
    let plan = match a {
        Action::Broadcast { plan } => plan,
        _ => panic!("expected a broadcast request"),
    };
    assert_eq!(plan.gas_limit, 25200);
    assert_eq!(plan.draft.max_fee_per_gas, 14);
    let hash = vec![0xab, 0xcd, 0xef];
    let (wf, a) = wf.step(ChainEvent::BroadcastResult { hash: Some(hash.clone()) });
    assert!(matches!(a, Action::AwaitReceipt));
    match &wf.phase {
        Phase::NeedReceipt { tx } => {
            assert_eq!(tx.hash, hash);
            assert_eq!(tx.status, TxStatus::Pending);
        },
        _ => panic!("expected a tracked transaction"),
    }
    let (wf, a) = wf.step(ChainEvent::ReceiptObserved { success: true });
    assert!(matches!(a, Action::Stop));
    match &wf.phase {
        Phase::Finished { outcome: Outcome::Completed { tx } } => {
            assert_eq!(tx.hash, hash);
            assert_eq!(tx.status, TxStatus::Confirmed);
        },
        _ => panic!("expected a confirmed transaction"),
    }
}

fn run_to_receipt(amount: u128) -> (Workflow, Vec<u8>) {
    let (wf, _) = Workflow::start(&test_intent(amount));
    let (wf, _) = wf.step(ChainEvent::ChainId { id: 1 });
    let (wf, _) = wf.step(ChainEvent::Balances { sender: u128::MAX, recipient: 0 });
    let (wf, _) = wf.step(ChainEvent::LatestBaseFee { base_fee: Some(10) });
    let (wf, _) = wf.step(ChainEvent::FeeSuggestion { max_fee: 11, tip: 2 });
    let (wf, _) = wf.step(ChainEvent::GasEstimate { gas: Some(21000) });
    let hash = vec![0x12, 0x34];
    let (wf, _) = wf.step(ChainEvent::BroadcastResult { hash: Some(hash.clone()) });
    (wf, hash)
}

#[test]
fn receipt_timeout_leaves_status_unknown_with_hash() {
    let (wf, hash) = run_to_receipt(5);
    let (wf, a) = wf.step(ChainEvent::ReceiptTimeout);
    assert!(matches!(a, Action::Stop));
    match &wf.phase {
        Phase::Finished { outcome } => match outcome {
            Outcome::Completed { tx } => {
                assert_eq!(tx.hash, hash);
                assert_eq!(tx.status, TxStatus::Unknown);
            },
            _ => panic!("a timeout is not an error"),
        },
        _ => panic!("expected a finished workflow"),
    }
}

#[test]
fn receipt_wait_error_keeps_the_hash() {
    let (wf, hash) = run_to_receipt(5);
    let (wf, a) = wf.step(ChainEvent::ReceiptWaitError);
    assert!(matches!(a, Action::Stop));
    match &wf.phase {
        Phase::Finished { outcome } => {
            assert_eq!(outcome.error(), Some(TransferError::ConfirmationWaitFailed));
            match outcome {
                Outcome::WaitFailed { hash: kept } => assert_eq!(kept, &hash),
                _ => panic!("expected a kept hash"),
            }
        },
        _ => panic!("expected a finished workflow"),
    }
}

#[test]
fn failure_receipt_still_confirms_inclusion() {
    let (wf, hash) = run_to_receipt(5);
    let (wf, _) = wf.step(ChainEvent::ReceiptObserved { success: false });
    match &wf.phase {
        Phase::Finished { outcome: Outcome::Completed { tx } } => {
            assert_eq!(tx.hash, hash);
            assert_eq!(tx.status, TxStatus::Confirmed);
        },
        _ => panic!("expected a completed transaction"),
    }
}

#[test]
fn error_labels_are_stable() {
    assert_eq!(TransferError::InsufficientFunds.label(), "insufficient funds");
    assert_eq!(
        TransferError::InsufficientFundsForGas.label(),
        "insufficient funds for gas"
    );
    assert_eq!(TransferError::ConfigError.label(), "config error");
}
