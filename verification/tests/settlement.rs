//! Scenario tests for the settlement engine: the two-phase purchase
//! and claim protocol against the pending-trade ledger.

use digital_world::account::Identity;
use digital_world::settle::{
    buy_item, claim_finish, claim_sale, deposit_finish, deposit_plan, ClaimError, DepositErr,
    TransferOutcome, ICP_FEE,
};
use digital_world::trade::TradeLedger;

fn identity(bytes: &[u8]) -> Identity {
    Identity { bytes: bytes.to_vec() }
}

#[test]
fn test_buy_item_and_claim_sale() {
    let item_id: i128 = 1;
    let owner = identity(b"Owner");
    let canister = identity(&[9, 9, 9]);

    let mut ledger = TradeLedger::new();
    let buy_result = buy_item(&mut ledger, item_id, 100, Some(identity(b"Owner")));
    assert!(buy_result.is_ok());

    let claim_result = claim_sale(&ledger, item_id, &owner, &canister);
    assert!(claim_result.is_ok());
}

#[test]
fn buy_records_seller_and_amount() {
    let mut ledger = TradeLedger::new();
    let seller = identity(&[7, 1, 2]);
    let r = buy_item(&mut ledger, 42, 100, Some(seller));
    assert_eq!(r, Ok(()));
    let trade = ledger.get(42).expect("trade must be recorded");
    assert_eq!(trade.seller.bytes, vec![7, 1, 2]);
    assert_eq!(trade.amount, 100);
}

#[test]
fn buy_without_catalog_owner_is_item_not_found() {
    let mut ledger = TradeLedger::new();
    let r = buy_item(&mut ledger, 42, 100, None);
    assert_eq!(r, Err(DepositErr::ItemNotFound));
    assert!(ledger.get(42).is_none());
}

#[test]
fn deposit_plan_balance_below_fee_is_balance_low() {
    let caller = identity(&[1]);
    let canister = identity(&[2]);
    let r = deposit_plan(&caller, &canister, ICP_FEE - 1);
    assert_eq!(r.err(), Some(DepositErr::BalanceLow));
}

#[test]
fn deposit_plan_moves_whole_remainder() {
    let caller = identity(&[1]);
    let canister = identity(&[2]);
    let plan = deposit_plan(&caller, &canister, 250_000).expect("balance covers the fee");
    assert_eq!(plan.amount, 240_000);
    assert_eq!(plan.fee, 10_000);
    assert_eq!(plan.from_subaccount.bytes[0], 1);
    assert_eq!(plan.from_subaccount.bytes[1], 1);
    assert_eq!(plan.to_account.len(), 32);
}

#[test]
fn deposit_finish_keeps_only_confirmed_transfers() {
    assert_eq!(deposit_finish(&TransferOutcome::Confirmed(5)), Ok(()));
    assert_eq!(
        deposit_finish(&TransferOutcome::CallRejected),
        Err(DepositErr::TransferFailure)
    );
    assert_eq!(
        deposit_finish(&TransferOutcome::TransferRejected),
        Err(DepositErr::TransferFailure)
    );
}

#[test]
fn full_purchase_and_claim_of_item_42() {
    let seller = identity(&[5, 5, 5]);
    let buyer = identity(&[6, 6, 6]);
    let canister = identity(&[9]);
    let mut ledger = TradeLedger::new();

    let buy = buy_item(&mut ledger, 42, 100, Some(identity(&[5, 5, 5])));
    assert_eq!(buy, Ok(()));
    let trade = ledger.get(42).expect("pending trade");
    assert_eq!(trade.seller.bytes, vec![5, 5, 5]);
    assert_eq!(trade.amount, 100);

    let deposit = deposit_plan(&buyer, &canister, 1_000_000).expect("sufficient balance");
    assert_eq!(deposit.amount, 1_000_000 - ICP_FEE);
    assert_eq!(deposit_finish(&TransferOutcome::Confirmed(1)), Ok(()));

    let payout = claim_sale(&ledger, 42, &seller, &canister).expect("seller may claim");
    assert_eq!(payout.amount, 100);
    assert_eq!(payout.fee, ICP_FEE);

    let done = claim_finish(&mut ledger, 42, &TransferOutcome::Confirmed(77));
    assert_eq!(done, Ok(77));
    assert!(ledger.get(42).is_none());
}

#[test]
fn claim_before_any_purchase_is_item_not_found() {
    let stranger = identity(&[8, 8]);
    let canister = identity(&[9]);
    let ledger = TradeLedger::new();
    let r = claim_sale(&ledger, 42, &stranger, &canister);
    assert_eq!(r.err(), Some(ClaimError::ItemNotFound));
}

#[test]
fn second_claim_after_success_is_item_not_found() {
    let seller = identity(&[5, 5, 5]);
    let canister = identity(&[9]);
    let mut ledger = TradeLedger::new();
    buy_item(&mut ledger, 42, 100, Some(identity(&[5, 5, 5]))).unwrap();
    claim_sale(&ledger, 42, &seller, &canister).expect("first claim");
    claim_finish(&mut ledger, 42, &TransferOutcome::Confirmed(3)).expect("first payout");

    let again = claim_sale(&ledger, 42, &seller, &canister);
    assert_eq!(again.err(), Some(ClaimError::ItemNotFound));
}

#[test]
fn claim_by_non_seller_is_not_authorized_and_keeps_trade() {
    let seller = identity(&[5, 5, 5]);
    let intruder = identity(&[6, 6, 6]);
    let canister = identity(&[9]);
    let mut ledger = TradeLedger::new();
    buy_item(&mut ledger, 42, 100, Some(identity(&[5, 5, 5]))).unwrap();

    let r = claim_sale(&ledger, 42, &intruder, &canister);
    assert_eq!(r.err(), Some(ClaimError::NotAuthorized));
    let trade = ledger.get(42).expect("trade stays pending");
    assert_eq!(trade.seller.bytes, seller.bytes);
    assert_eq!(trade.amount, 100);
}

#[test]
fn failed_payout_keeps_trade_for_retry() {
    let seller = identity(&[5]);
    let canister = identity(&[9]);
    let mut ledger = TradeLedger::new();
    buy_item(&mut ledger, 7, 300, Some(identity(&[5]))).unwrap();

    let r = claim_finish(&mut ledger, 7, &TransferOutcome::CallRejected);
    assert_eq!(r.err(), Some(ClaimError::LedgerCallFailure));
    assert!(ledger.get(7).is_some());

    let r = claim_finish(&mut ledger, 7, &TransferOutcome::TransferRejected);
    assert_eq!(r.err(), Some(ClaimError::TransferFailure));
    assert!(ledger.get(7).is_some());

    let r = claim_finish(&mut ledger, 7, &TransferOutcome::Confirmed(12));
    assert_eq!(r, Ok(12));
    assert!(ledger.get(7).is_none());
}

#[test]
fn duplicate_purchase_overwrites_pending_trade() {
    let mut ledger = TradeLedger::new();
    buy_item(&mut ledger, 3, 100, Some(identity(&[1]))).unwrap();
    buy_item(&mut ledger, 3, 250, Some(identity(&[2]))).unwrap();
    let trade = ledger.get(3).expect("still pending");
    assert_eq!(trade.seller.bytes, vec![2]);
    assert_eq!(trade.amount, 250);
    assert_eq!(ledger.len(), 1);
}
