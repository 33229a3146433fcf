//! What holds of every purchase.
//!
//! Each law is stated over the mathematical view of the ledger and the
//! outcome functions that the contracts of [`crate::program`] use, so it holds
//! of every run of the executable code.

use vstd::prelude::*;
use crate::handler::{BuyError, Invocation, TransferError, TRANSFER_AMOUNT};
use crate::instruction::system_program_bytes;
use crate::ledger::{call_outcome, names, names_service, settle, signed_by, HostCall, LedgerView};
use crate::program::{buy_outcome, handle_outcome, process_outcome, transfer_note};
use crate::pubkey::Pubkey;

verus! {

/// An invocation that passed the check hands the transfer service all it asks
/// for, so the service's answer is decided by the balances alone.
pub proof fn lemma_admitted_call_settles(before: LedgerView, invocation: Invocation)
    requires
        invocation.admitted(),
    ensures
        call_outcome(before.balances, invocation.request(), true, invocation.accounts()) == settle(
            before.balances,
            invocation.request(),
        ),
{
    let infos = invocation.accounts();
    assert(infos[0].key == invocation.payer.key && infos[0].is_signer);
    assert(infos[1].key == invocation.merchant.key);
    assert(infos[2].key@ == system_program_bytes());
    assert(names(infos, invocation.request().source));
    assert(names(infos, invocation.request().destination));
    assert(names_service(infos));
    assert(signed_by(infos, invocation.request().source));
}

/// A purchase succeeds exactly when payer and merchant are known to the
/// ledger, the payer holds the fixed amount, the merchant's balance has room
/// for it (or payer and merchant are one account), and the clock can be read.
pub proof fn law_success_is_owed(before: LedgerView, invocation: Invocation)
    requires
        invocation.admitted(),
    ensures
        buy_outcome(before, invocation).0 is Ok <==> {
            &&& before.balances.dom().contains(invocation.payer.key)
            &&& before.balances.dom().contains(invocation.merchant.key)
            &&& before.balances[invocation.payer.key] >= TRANSFER_AMOUNT
            &&& (invocation.payer.key == invocation.merchant.key
                || before.balances[invocation.merchant.key] + TRANSFER_AMOUNT <= u64::MAX)
            &&& before.clock is Some
        },
{
    lemma_admitted_call_settles(before, invocation);
}

/// A purchase that succeeds, between two different accounts, takes exactly
/// the fixed amount from the payer, gives exactly that amount to the merchant,
/// leaves every other balance and the clock alone, and emits exactly one
/// receipt, whose amount is the fixed amount.
pub proof fn law_purchase_moves_the_amount(before: LedgerView, invocation: Invocation)
    requires
        invocation.admitted(),
        invocation.payer.key != invocation.merchant.key,
        before.balances.dom().contains(invocation.payer.key),
        before.balances[invocation.payer.key] >= TRANSFER_AMOUNT,
        buy_outcome(before, invocation).0 is Ok,
    ensures
        ({
            let after = buy_outcome(before, invocation).1;
            let payer = invocation.payer.key;
            let merchant = invocation.merchant.key;
            &&& after.balances.dom() == before.balances.dom()
            &&& before.balances.dom().contains(merchant)
            &&& after.balances[payer] == before.balances[payer] - TRANSFER_AMOUNT
            &&& after.balances[merchant] == before.balances[merchant] + TRANSFER_AMOUNT
            &&& forall|other: Pubkey|
                other != payer && other != merchant && before.balances.dom().contains(other)
                    ==> after.balances[other] == before.balances[other]
            &&& after.clock == before.clock
            &&& after.events.len() == before.events.len() + 1
            &&& after.events.drop_last() == before.events
            &&& after.events.last().amount == TRANSFER_AMOUNT
        }),
{
    lemma_admitted_call_settles(before, invocation);
    let after = buy_outcome(before, invocation).1;
    assert(after.balances.dom() =~= before.balances.dom());
    assert(after.events.drop_last() =~= before.events);
}

/// A purchase that succeeds has made exactly three calls, in this order: one
/// to the transfer service, for the fixed amount from the payer to the
/// merchant; then one reading of the clock; then the emission of the receipt,
/// which carries the timestamp that was read.
pub proof fn law_calls_come_in_order(before: LedgerView, invocation: Invocation)
    requires
        buy_outcome(before, invocation).0 is Ok,
    ensures
        ({
            let after = buy_outcome(before, invocation).1;
            let n = before.journal.len() as int;
            &&& after.journal.len() == n + 3
            &&& after.journal.subrange(0, n) == before.journal
            &&& after.journal[n] == transfer_note(invocation, Ok(()))
            &&& after.journal[n + 1] == HostCall::Clock { reading: before.clock }
            &&& before.clock is Some
            &&& after.journal[n + 2] == HostCall::Emit {
                receipt: invocation.receipt(before.clock->Some_0),
            }
        }),
{
    let after = buy_outcome(before, invocation).1;
    assert(after.journal.subrange(0, before.journal.len() as int) =~= before.journal);
}

/// A purchase that fails has called the transfer service exactly once, and
/// has read the clock after that only if the transfer was done. It has
/// emitted nothing.
pub proof fn law_failed_purchase_calls(before: LedgerView, invocation: Invocation)
    requires
        buy_outcome(before, invocation).0 is Err,
    ensures
        ({
            let (result, after) = buy_outcome(before, invocation);
            &&& after.events == before.events
            &&& match result->Err_0 {
                BuyError::Transfer(e) => after.journal == before.journal.push(
                    transfer_note(invocation, Err(e)),
                ),
                BuyError::ClockUnavailable => after.journal == before.journal.push(
                    transfer_note(invocation, Ok(())),
                ).push(HostCall::Clock { reading: None }),
                _ => false,
            }
        }),
{
}

/// A payer who holds less than the fixed amount cannot buy: the purchase
/// fails, no balance changes and no receipt is emitted. With both accounts
/// known to the ledger, the failure is the transfer service's refusal for
/// want of funds, and that refused call is all that the journal gains.
pub proof fn law_underfunded_payer_fails(before: LedgerView, invocation: Invocation)
    requires
        before.balances.dom().contains(invocation.payer.key),
        before.balances[invocation.payer.key] < TRANSFER_AMOUNT,
    ensures
        buy_outcome(before, invocation).0 is Err,
        buy_outcome(before, invocation).1.same_state(before),
        process_outcome(before, invocation).0 is Err,
        process_outcome(before, invocation).1.same_state(before),
        invocation.admitted() && before.balances.dom().contains(invocation.merchant.key) ==> {
            &&& buy_outcome(before, invocation).0 == Err::<(), BuyError>(
                BuyError::Transfer(TransferError::InsufficientFunds),
            )
            &&& buy_outcome(before, invocation).1.journal == before.journal.push(
                transfer_note(invocation, Err(TransferError::InsufficientFunds)),
            )
        },
{
    if invocation.admitted() {
        lemma_admitted_call_settles(before, invocation);
    }
}

/// A purchase that fails, for whatever reason, leaves balances, clock and
/// receipts as they were.
pub proof fn law_failure_changes_nothing(before: LedgerView, invocation: Invocation)
    requires
        process_outcome(before, invocation).0 is Err,
    ensures
        process_outcome(before, invocation).1.same_state(before),
        buy_outcome(before, invocation).0 is Err ==> buy_outcome(before, invocation).1.same_state(
            before,
        ),
{
}

/// A receipt is emitted exactly when the purchase succeeds, and then exactly
/// one.
pub proof fn law_receipt_iff_success(before: LedgerView, invocation: Invocation)
    ensures
        ({
            let (result, after) = buy_outcome(before, invocation);
            &&& result is Ok ==> after.events.len() == before.events.len() + 1
            &&& result is Err ==> after.events == before.events
        }),
{
}

/// An invocation whose payer has not signed is refused at the check before
/// the handler: no call is made to the ledger, no transfer is asked for, and
/// the ledger stays as it was, journal and all.
pub proof fn law_unsigned_payer_is_refused(before: LedgerView, invocation: Invocation)
    requires
        !invocation.payer.is_signer,
    ensures
        invocation.admission() == Err::<(), BuyError>(BuyError::Authorization),
        process_outcome(before, invocation) == (
            Err::<(), BuyError>(BuyError::Authorization),
            before,
        ),
{
}

/// Buying twice with a payer who holds less than the fixed amount fails twice
/// in the same way, and after both attempts balances, clock and receipts are
/// as they were before the first.
pub proof fn law_failure_repeats(before: LedgerView, invocation: Invocation)
    requires
        before.balances.dom().contains(invocation.payer.key),
        before.balances[invocation.payer.key] < TRANSFER_AMOUNT,
    ensures
        ({
            let (first, between) = buy_outcome(before, invocation);
            let (second, after) = buy_outcome(between, invocation);
            &&& first is Err
            &&& second == first
            &&& after.same_state(before)
        }),
        ({
            let (first, between) = process_outcome(before, invocation);
            let (second, after) = process_outcome(between, invocation);
            &&& first is Err
            &&& second == first
            &&& after.same_state(before)
        }),
{
    law_underfunded_payer_fails(before, invocation);
    let between = buy_outcome(before, invocation).1;
    assert(between.balances == before.balances);
    law_underfunded_payer_fails(between, invocation);
}

/// The receipt of a purchase names the payer as buyer and the merchant as
/// merchant, by the identifiers of the invocation, and carries the fixed
/// amount. Its timestamp is the clock's reading, which within one instruction
/// is the reading at its start, and which is the latest timestamp that the
/// ledger's clock has ever shown: the receipt is never dated earlier.
pub proof fn law_receipt_is_faithful(before: LedgerView, invocation: Invocation)
    requires
        before.clock_is_latest(),
        buy_outcome(before, invocation).0 is Ok,
    ensures
        ({
            let receipt = buy_outcome(before, invocation).1.events.last();
            &&& receipt.buyer == invocation.payer.key
            &&& receipt.merchant == invocation.merchant.key
            &&& receipt.amount == TRANSFER_AMOUNT
            &&& before.clock is Some
            &&& receipt.timestamp == before.clock->Some_0
            &&& receipt.timestamp >= before.clock->Some_0
            &&& before.latest is Some
            &&& receipt.timestamp >= before.latest->Some_0
        }),
{
}

/// The handler alone, without the ledger's promise of all or nothing, can end
/// in one state that a purchase never shows: the amount moved and no receipt.
/// It does so exactly when the transfer is done and the clock cannot be read.
/// In every other case the handler leaves what the purchase leaves.
pub proof fn law_handler_needs_the_ledger(before: LedgerView, invocation: Invocation)
    ensures
        ({
            let (result, after) = handle_outcome(before, invocation);
            &&& result == buy_outcome(before, invocation).0
            &&& after.journal == buy_outcome(before, invocation).1.journal
            &&& after.clock == before.clock
            &&& result != Err::<(), BuyError>(BuyError::ClockUnavailable) ==> after == buy_outcome(
                before,
                invocation,
            ).1
            &&& result == Err::<(), BuyError>(BuyError::ClockUnavailable) ==> after.events
                == before.events && Ok::<Map<Pubkey, u64>, TransferError>(after.balances)
                == call_outcome(
                before.balances,
                invocation.request(),
                true,
                invocation.accounts(),
            )
        }),
{
}

} // verus!
