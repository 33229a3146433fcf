//! The purchase instruction, run on the ledger.

use vstd::prelude::*;
use crate::handler::{on_transfer, Buy, BuyError, Invocation, TransferError};
use crate::instruction::transfer_accounts;
use crate::ledger::{call_outcome, HostCall, Ledger, LedgerView};

verus! {

/// The note that the ledger makes of the handler's call to the transfer
/// service, answered with `answer`.
pub open spec fn transfer_note(ctx: Invocation, answer: Result<(), TransferError>) -> HostCall {
    HostCall::Transfer { request: Some(ctx.request()), answer }
}

/// What the handler does to a ledger in the state `before`, and how it ends,
/// when nothing undoes the work of a handler that fails.
///
/// The handler calls the transfer service once. After a refusal it does
/// nothing more. After a transfer it reads the clock once; if the clock cannot
/// be read, the purchase ends with the amount moved and no receipt. With a
/// timestamp it emits one receipt, and that is its last call.
pub open spec fn handle_outcome(before: LedgerView, ctx: Invocation) -> (Result<(), BuyError>, LedgerView) {
    match call_outcome(before.balances, ctx.request(), true, ctx.accounts()) {
        Err(e) => (
            Err(BuyError::Transfer(e)),
            LedgerView { journal: before.journal.push(transfer_note(ctx, Err(e))), ..before },
        ),
        Ok(balances) => match before.clock {
            None => (
                Err(BuyError::ClockUnavailable),
                LedgerView {
                    balances,
                    journal: before.journal.push(transfer_note(ctx, Ok(()))).push(
                        HostCall::Clock { reading: None },
                    ),
                    ..before
                },
            ),
            Some(timestamp) => (
                Ok(()),
                LedgerView {
                    balances,
                    events: before.events.push(ctx.receipt(timestamp)),
                    journal: before.journal.push(transfer_note(ctx, Ok(()))).push(
                        HostCall::Clock { reading: Some(timestamp) },
                    ).push(HostCall::Emit { receipt: ctx.receipt(timestamp) }),
                    ..before
                },
            ),
        },
    }
}

/// What a purchase does to a ledger in the state `before`, and how it ends.
/// It is all or nothing: a purchase that succeeds does what the handler did,
/// and one that fails leaves balances, clock and receipts as they were. The
/// journal keeps the handler's calls either way.
pub open spec fn buy_outcome(before: LedgerView, ctx: Invocation) -> (Result<(), BuyError>, LedgerView) {
    let (result, after) = handle_outcome(before, ctx);
    if result is Ok {
        (result, after)
    } else {
        (result, LedgerView { journal: after.journal, ..before })
    }
}

/// What an invocation does to a ledger in the state `before`, and how it
/// ends: refused at the check before the handler, with the ledger as it was
/// and no call made, or else a purchase.
pub open spec fn process_outcome(before: LedgerView, invocation: Invocation) -> (
    Result<(), BuyError>,
    LedgerView,
) {
    match invocation.admission() {
        Err(e) => (Err(e), before),
        Ok(_) => buy_outcome(before, invocation),
    }
}

/// Runs the handler on `ledger`: asks the transfer service to move the fixed
/// amount from the payer to the merchant, then reads the clock, then emits the
/// receipt. The first step that fails ends the run; what was done before it
/// stays done.
pub fn handle(ctx: &Buy, ledger: &mut Ledger) -> (result: Result<(), BuyError>)
    ensures
        ctx@.admitted(),
        result == handle_outcome(old(ledger)@, ctx@).0,
        final(ledger)@ == handle_outcome(old(ledger)@, ctx@).1,
{
    let call = ctx.transfer_call();
    proof {
        assert(call.instruction.accounts@[0] == transfer_accounts(
            ctx@.payer.key,
            ctx@.merchant.key,
        )[0]);
    }
    let answer = ledger.invoke(&call.instruction, &call.accounts);
    match on_transfer(answer) {
        Ok(_) => {},
        Err(e) => { return Err(e); },
    }
    let receipt = match ctx.on_clock(ledger.unix_timestamp()) {
        Ok(receipt) => receipt,
        Err(e) => { return Err(e); },
    };
    ledger.emit(receipt);
    Ok(())
}

/// Buys: moves the fixed amount from the payer to the merchant and emits one
/// receipt, or fails and leaves the balances and receipts of `ledger` as they
/// were.
pub fn buy(ctx: &Buy, ledger: &mut Ledger) -> (result: Result<(), BuyError>)
    ensures
        ctx@.admitted(),
        result == buy_outcome(old(ledger)@, ctx@).0,
        final(ledger)@ == buy_outcome(old(ledger)@, ctx@).1,
{
    let mut work = ledger.fork();
    let result = handle(ctx, &mut work);
    if result.is_ok() {
        ledger.commit(work);
    } else {
        ledger.discard(work);
    }
    result
}

/// Serves one invocation: checks the accounts, and buys if they pass. An
/// invocation that is refused at the check never reaches the transfer service.
pub fn process(invocation: &Invocation, ledger: &mut Ledger) -> (result: Result<(), BuyError>)
    ensures
        result == process_outcome(old(ledger)@, *invocation).0,
        final(ledger)@ == process_outcome(old(ledger)@, *invocation).1,
{
    match Buy::try_accounts(invocation) {
        Ok(ctx) => buy(&ctx, ledger),
        Err(e) => Err(e),
    }
}

} // verus!
