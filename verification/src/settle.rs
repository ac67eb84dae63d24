//! The two-phase buy/claim settlement protocol.
//!
//! Each operation suspends at its calls into the external
//! value-transfer ledger, so it is split at those points: a function
//! here makes each decision on plain values and hands back a
//! [`TransferPlan`] for the caller to perform; a later function takes
//! the call's outcome and finishes the operation.

use vstd::prelude::*;

use crate::account::{
    Identity, SubAccount, account_for, account_id_of, principal_to_subaccount, subaccount_of,
};
use crate::trade::{Trade, TradeLedger};

verus! {

/// Fixed fee, in the ledger's base unit, that every transfer pays.
pub const ICP_FEE: u64 = 10_000;

/// Why a purchase failed.
#[derive(Clone, Copy, PartialEq, Eq, Structural, Debug)]
pub enum DepositErr {
    /// The caller's balance does not cover the fixed fee.
    BalanceLow,
    /// The external transfer call failed or was rejected.
    TransferFailure,
    /// The catalog knows no owner for the item.
    ItemNotFound,
}

/// What a purchase returns: confirmation, or the reason it failed.
pub type DepositReceipt = Result<(), DepositErr>;

/// Why a claim failed.
#[derive(Clone, Copy, PartialEq, Eq, Structural, Debug)]
pub enum ClaimError {
    /// No pending trade is recorded for the item.
    ItemNotFound,
    /// The claimant is not the recorded seller.
    NotAuthorized,
    /// The call to the external ledger itself failed.
    LedgerCallFailure,
    /// The external ledger rejected the transfer.
    TransferFailure,
}

/// The outcome of one external transfer call, as a plain value: the
/// confirming block index, or which of the two legs failed.
#[derive(Clone, Copy, PartialEq, Eq, Structural, Debug)]
pub enum TransferOutcome {
    /// The ledger accepted the transfer at this block index.
    Confirmed(u64),
    /// The call to the ledger never got an answer it could use.
    CallRejected,
    /// The ledger answered and rejected the transfer.
    TransferRejected,
}

/// A transfer the settlement engine wants performed on the external
/// ledger: how much, at what fee, from which sub-account, and into
/// which 32-byte account identifier.
pub struct TransferPlan {
    pub amount: u64,
    pub fee: u64,
    pub from_subaccount: SubAccount,
    pub to_account: Vec<u8>,
}

/// A transfer as requested over the public surface: amount and
/// recipient. The transport layer carries a serializable twin of
/// this type.
pub struct TransferArgs {
    pub amount: u64,
    pub to_principal: Identity,
    pub to_subaccount: Option<SubAccount>,
}

/// First leg of a purchase: given the catalog's answer for the
/// item's owner, record the pending trade before funds move. An
/// unclaimed trade for the same item is silently overwritten.
pub fn buy_item(
    ledger: &mut TradeLedger,
    item_id: i128,
    amount: u64,
    owner: Option<Identity>,
) -> (r: DepositReceipt)
    ensures
        owner is None ==> r == DepositReceipt::Err(DepositErr::ItemNotFound) && final(ledger)@
            == old(ledger)@,
        (owner matches Some(seller) ==> r == DepositReceipt::Ok(()) && final(ledger)@ == old(
            ledger,
        )@.insert(item_id, (Trade { seller, amount }))),
{
    match owner {
        None => Err(DepositErr::ItemNotFound),
        Some(seller) => {
            ledger.put(item_id, Trade { seller, amount });
            Ok(())
        },
    }
}

/// Second leg of a purchase, after the caller's balance arrived from
/// the external ledger: fail with `BalanceLow` exactly when the
/// balance is below the fixed fee, else plan the deposit of the
/// whole remainder from the caller's sub-account into the canister's
/// own account.
pub fn deposit_plan(caller: &Identity, canister: &Identity, balance: u64) -> (r: Result<
    TransferPlan,
    DepositErr,
>)
    requires
        caller.wf(),
        canister.wf(),
    ensures
        balance < ICP_FEE <==> r == Result::<TransferPlan, DepositErr>::Err(DepositErr::BalanceLow),
        balance >= ICP_FEE ==> (r matches Ok(p) && p.amount == balance - ICP_FEE && p.fee == ICP_FEE
            && p.from_subaccount@ == subaccount_of(caller@) && p.to_account@ == account_id_of(
            canister@,
            subaccount_of(canister@),
        )),
{
    if balance < ICP_FEE {
        Err(DepositErr::BalanceLow)
    } else {
        let from_subaccount = principal_to_subaccount(caller);
        let to_account = account_for(canister);
        Ok(TransferPlan { amount: balance - ICP_FEE, fee: ICP_FEE, from_subaccount, to_account })
    }
}

/// Last leg of a purchase: any failure of the external transfer
/// surfaces as `TransferFailure`; only a confirmed transfer is a
/// deposit.
pub fn deposit_finish(outcome: &TransferOutcome) -> (r: DepositReceipt)
    ensures
        (outcome is Confirmed) <==> r == DepositReceipt::Ok(()),
        !(outcome is Confirmed) ==> r == DepositReceipt::Err(DepositErr::TransferFailure),
{
    match outcome {
        TransferOutcome::Confirmed(_) => Ok(()),
        TransferOutcome::CallRejected => Err(DepositErr::TransferFailure),
        TransferOutcome::TransferRejected => Err(DepositErr::TransferFailure),
    }
}

/// First leg of a claim: look the pending trade up, authorize the
/// caller as the recorded seller, and plan the payout of the trade's
/// amount from the canister's sub-account into the seller's account.
/// The ledger is read only: a failed claim leaves every trade as it
/// was.
pub fn claim_sale(ledger: &TradeLedger, item_id: i128, caller: &Identity, canister: &Identity) -> (r:
    Result<TransferPlan, ClaimError>)
    requires
        caller.wf(),
        canister.wf(),
    ensures
        !ledger@.contains_key(item_id) <==> r == Result::<TransferPlan, ClaimError>::Err(
            ClaimError::ItemNotFound,
        ),
        ledger@.contains_key(item_id) && ledger@[item_id].seller@ != caller@ <==> r
            == Result::<TransferPlan, ClaimError>::Err(ClaimError::NotAuthorized),
        ledger@.contains_key(item_id) && ledger@[item_id].seller@ == caller@ ==> (r matches Ok(p)
            && p.amount == ledger@[item_id].amount && p.fee == ICP_FEE && p.from_subaccount@
            == subaccount_of(canister@) && p.to_account@ == account_id_of(
            caller@,
            subaccount_of(caller@),
        )),
{
    match ledger.get(item_id) {
        None => Err(ClaimError::ItemNotFound),
        Some(trade) => {
            if !trade.seller.same_as(caller) {
                Err(ClaimError::NotAuthorized)
            } else {
                let from_subaccount = principal_to_subaccount(canister);
                let to_account = account_for(caller);
                Ok(TransferPlan { amount: trade.amount, fee: ICP_FEE, from_subaccount, to_account })
            }
        },
    }
}

/// Last leg of a claim, after the payout's outcome arrived: a
/// confirmed transfer removes the trade and returns the block index;
/// either failure leaves the trade intact so the seller can retry.
pub fn claim_finish(ledger: &mut TradeLedger, item_id: i128, outcome: &TransferOutcome) -> (r:
    Result<u64, ClaimError>)
    ensures
        (outcome matches TransferOutcome::Confirmed(b) ==> r == Result::<u64, ClaimError>::Ok(*b)
            && final(ledger)@ == old(ledger)@.remove(item_id)),
        outcome is CallRejected ==> r == Result::<u64, ClaimError>::Err(
            ClaimError::LedgerCallFailure,
        ) && final(ledger)@ == old(ledger)@,
        outcome is TransferRejected ==> r == Result::<u64, ClaimError>::Err(
            ClaimError::TransferFailure,
        ) && final(ledger)@ == old(ledger)@,
{
    match outcome {
        TransferOutcome::Confirmed(b) => {
            ledger.remove(item_id);
            Ok(*b)
        },
        TransferOutcome::CallRejected => Err(ClaimError::LedgerCallFailure),
        TransferOutcome::TransferRejected => Err(ClaimError::TransferFailure),
    }
}

/// A recorded purchase is visible until claimed: in the ledger state
/// that a successful `buy_item` leaves, the item maps to a trade
/// holding exactly the catalog's seller and the promised amount.
pub proof fn lemma_purchase_recorded(
    before: Map<i128, Trade>,
    item_id: i128,
    seller: Identity,
    amount: u64,
)
    ensures
        before.insert(item_id, (Trade { seller, amount })).contains_key(item_id),
        before.insert(item_id, (Trade { seller, amount }))[item_id].seller == seller,
        before.insert(item_id, (Trade { seller, amount }))[item_id].amount == amount,
{
}

/// A claimed sale is gone: in the ledger state that a confirmed
/// `claim_finish` leaves, the item has no pending trade, so a second
/// claim finds nothing.
pub proof fn lemma_claim_removes(before: Map<i128, Trade>, item_id: i128)
    ensures
        !before.remove(item_id).contains_key(item_id),
{
}

} // verus!

