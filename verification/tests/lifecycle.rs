use multisig::Address;
use multisig::MultiSig;
use multisig::MultiSigError;
use multisig::execution_result;

fn addr(n: u128) -> Address {
    Address::new(0, n)
}

// A wallet with owners 1, 2 and 3 and a threshold of two confirmations.
fn wallet() -> MultiSig {
    let mut w = MultiSig::new();
    w.initialize(vec![addr(1), addr(2), addr(3)], 2).unwrap();
    w
}

#[test]
fn submit_assigns_sequential_indices() {
    let mut w = wallet();
    assert_eq!(w.submit_transaction(addr(1), addr(9), 10, Vec::new()), Ok(0));
    assert_eq!(w.submit_transaction(addr(2), addr(8), 20, vec![1, 2]), Ok(1));
    assert_eq!(w.transaction_count(), 2);
    assert_eq!(w.is_executed(0), Some(false));
    assert_eq!(w.is_executed(1), Some(false));
    assert_eq!(w.num_confirmations(0), Some(0));
    assert_eq!(w.num_confirmations(1), Some(0));
}

#[test]
fn non_owner_rejected_without_state_change() {
    let mut w = wallet();
    assert_eq!(w.submit_transaction(addr(1), addr(9), 10, Vec::new()), Ok(0));
    let stranger = addr(42);
    assert_eq!(
        w.submit_transaction(stranger, addr(9), 1, Vec::new()),
        Err(MultiSigError::NotOwner)
    );
    assert_eq!(w.confirm_transaction(stranger, 0), Err(MultiSigError::NotOwner));
    assert_eq!(w.execute_transaction(stranger, 0), Err(MultiSigError::NotOwner));
    assert_eq!(w.transaction_count(), 1);
    assert_eq!(w.num_confirmations(0), Some(0));
    assert_eq!(w.is_executed(0), Some(false));
}

#[test]
fn confirm_registers_each_owner_once() {
    let mut w = wallet();
    w.submit_transaction(addr(1), addr(9), 10, Vec::new()).unwrap();
    assert_eq!(w.confirm_transaction(addr(1), 0), Ok(()));
    assert_eq!(w.num_confirmations(0), Some(1));
    assert_eq!(w.has_confirmed(0, addr(1)), Some(true));
    assert_eq!(w.has_confirmed(0, addr(2)), Some(false));
    // a second confirmation by the same owner changes nothing
    assert_eq!(
        w.confirm_transaction(addr(1), 0),
        Err(MultiSigError::TxAlreadyConfirmed)
    );
    assert_eq!(w.num_confirmations(0), Some(1));
    // a different owner still advances the record
    assert_eq!(w.confirm_transaction(addr(2), 0), Ok(()));
    assert_eq!(w.num_confirmations(0), Some(2));
}

#[test]
fn confirm_of_missing_record_rejected() {
    let mut w = wallet();
    w.submit_transaction(addr(1), addr(9), 10, Vec::new()).unwrap();
    w.submit_transaction(addr(1), addr(9), 20, Vec::new()).unwrap();
    // only two records exist, so index 5 addresses none
    assert_eq!(
        w.confirm_transaction(addr(1), 5),
        Err(MultiSigError::TxDoesNotExist)
    );
    assert_eq!(
        w.execute_transaction(addr(1), 5),
        Err(MultiSigError::TxDoesNotExist)
    );
    assert_eq!(w.num_confirmations(5), None);
    assert_eq!(w.is_executed(5), None);
    assert_eq!(w.has_confirmed(5, addr(1)), None);
}

#[test]
fn execute_below_quorum_rejected() {
    let mut w = wallet();
    w.submit_transaction(addr(1), addr(9), 10, Vec::new()).unwrap();
    assert_eq!(
        w.execute_transaction(addr(1), 0),
        Err(MultiSigError::NotEnoughConfirmations)
    );
    w.confirm_transaction(addr(1), 0).unwrap();
    assert_eq!(
        w.execute_transaction(addr(1), 0),
        Err(MultiSigError::NotEnoughConfirmations)
    );
    assert_eq!(w.is_executed(0), Some(false));
}

#[test]
fn execute_at_quorum_commits_and_hands_back_the_effect() {
    let mut w = wallet();
    w.submit_transaction(addr(1), addr(9), 7, vec![1, 2, 3]).unwrap();
    w.confirm_transaction(addr(1), 0).unwrap();
    w.confirm_transaction(addr(2), 0).unwrap();
    let req = w.execute_transaction(addr(3), 0).unwrap();
    assert_eq!(req.to, addr(9));
    assert_eq!(req.value, 7);
    assert_eq!(req.data, vec![1, 2, 3]);
    assert_eq!(w.is_executed(0), Some(true));
    // the record keeps its confirmations for auditing
    assert_eq!(w.num_confirmations(0), Some(2));
}

#[test]
fn executed_record_rejects_further_confirm_and_execute() {
    let mut w = wallet();
    w.submit_transaction(addr(1), addr(9), 10, Vec::new()).unwrap();
    w.confirm_transaction(addr(1), 0).unwrap();
    w.confirm_transaction(addr(2), 0).unwrap();
    w.execute_transaction(addr(1), 0).unwrap();
    assert_eq!(
        w.confirm_transaction(addr(3), 0),
        Err(MultiSigError::TxAlreadyExecuted)
    );
    assert_eq!(
        w.execute_transaction(addr(2), 0),
        Err(MultiSigError::TxAlreadyExecuted)
    );
    assert_eq!(w.num_confirmations(0), Some(2));
}

#[test]
fn effect_outcome_decides_the_final_result() {
    assert_eq!(execution_result(true), Ok(()));
    assert_eq!(execution_result(false), Err(MultiSigError::ExecuteFailed));
}

#[test]
fn failed_effect_leaves_record_executed() {
    let mut w = wallet();
    w.submit_transaction(addr(1), addr(9), 10, Vec::new()).unwrap();
    w.confirm_transaction(addr(1), 0).unwrap();
    w.confirm_transaction(addr(2), 0).unwrap();
    let _req = w.execute_transaction(addr(1), 0).unwrap();
    // the host performed the effect and it failed
    assert_eq!(execution_result(false), Err(MultiSigError::ExecuteFailed));
    // the record stays executed: the failed effect cannot be retried
    assert_eq!(w.is_executed(0), Some(true));
    assert_eq!(
        w.execute_transaction(addr(1), 0),
        Err(MultiSigError::TxAlreadyExecuted)
    );
}

#[test]
fn quorum_scenario_with_three_owners() {
    // owners 1, 2 and 3, threshold 2
    let mut w = wallet();
    // submit a transfer of 10 to target 9 with an empty payload
    assert_eq!(w.submit_transaction(addr(1), addr(9), 10, Vec::new()), Ok(0));
    // first confirmation: one vote, still below quorum
    assert_eq!(w.confirm_transaction(addr(1), 0), Ok(()));
    assert_eq!(w.num_confirmations(0), Some(1));
    assert_eq!(
        w.execute_transaction(addr(1), 0),
        Err(MultiSigError::NotEnoughConfirmations)
    );
    // second confirmation reaches the quorum
    assert_eq!(w.confirm_transaction(addr(2), 0), Ok(()));
    assert_eq!(w.num_confirmations(0), Some(2));
    // any owner may execute, even one that never confirmed
    let req = w.execute_transaction(addr(3), 0).unwrap();
    assert_eq!(req.to, addr(9));
    assert_eq!(req.value, 10);
    assert_eq!(req.data, Vec::<u8>::new());
    assert_eq!(w.is_executed(0), Some(true));
    // once executed, execution cannot happen again
    assert_eq!(
        w.execute_transaction(addr(1), 0),
        Err(MultiSigError::TxAlreadyExecuted)
    );
}

#[test]
fn extreme_amount_and_payload_carried_unchanged() {
    let mut w = wallet();
    let payload: Vec<u8> = (0..=255u8).collect();
    w.submit_transaction(addr(1), addr(9), u128::MAX, payload.clone())
        .unwrap();
    w.confirm_transaction(addr(2), 0).unwrap();
    w.confirm_transaction(addr(3), 0).unwrap();
    let req = w.execute_transaction(addr(1), 0).unwrap();
    assert_eq!(req.value, u128::MAX);
    assert_eq!(req.data, payload);
}

#[test]
fn confirmations_above_quorum_still_execute() {
    let mut w = wallet();
    w.submit_transaction(addr(1), addr(9), 1, Vec::new()).unwrap();
    w.confirm_transaction(addr(1), 0).unwrap();
    w.confirm_transaction(addr(2), 0).unwrap();
    w.confirm_transaction(addr(3), 0).unwrap();
    assert_eq!(w.num_confirmations(0), Some(3));
    assert!(w.execute_transaction(addr(2), 0).is_ok());
}

#[test]
fn uninitialized_wallet_rejects_everyone() {
    let mut w = MultiSig::new();
    // no owners are installed, so nobody passes the membership check
    assert_eq!(
        w.submit_transaction(addr(1), addr(9), 10, Vec::new()),
        Err(MultiSigError::NotOwner)
    );
    assert_eq!(w.confirm_transaction(addr(1), 0), Err(MultiSigError::NotOwner));
    assert_eq!(w.execute_transaction(addr(1), 0), Err(MultiSigError::NotOwner));
    assert_eq!(w.transaction_count(), 0);
}
