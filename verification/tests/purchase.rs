use facepay_program::handler::AccountInfo;
use facepay_program::instruction::system_program_id;
use facepay_program::instruction::TransferRequest;
use facepay_program::ledger::{HostCall, Ledger};
use facepay_program::program::handle;
use facepay_program::pubkey::Pubkey;
use facepay_program::{buy, process, Buy, BuyError, Invocation, Purchase, TransferError, TRANSFER_AMOUNT};

fn key(seed: u8) -> Pubkey {
    Pubkey::new_from_array([seed; 32])
}

fn invocation(payer: Pubkey, merchant: Pubkey) -> Invocation {
    Invocation {
        payer: AccountInfo { key: payer, is_signer: true },
        merchant: AccountInfo { key: merchant, is_signer: false },
        system_program: AccountInfo { key: system_program_id(), is_signer: false },
    }
}

fn ledger_with(clock: Option<i64>, accounts: &[(Pubkey, u64)]) -> Ledger {
    let mut ledger = Ledger::new(clock);
    for (k, lamports) in accounts {
        assert!(ledger.open_account(*k, *lamports));
    }
    ledger
}

#[test]
fn fixed_amount_is_ten_million() {
    assert_eq!(TRANSFER_AMOUNT, 10_000_000);
}

#[test]
fn purchase_moves_amount_and_emits_one_receipt() {
    let (payer, merchant) = (key(1), key(2));
    let mut ledger = ledger_with(Some(1_700_000_000), &[(payer, 50_000_000), (merchant, 0)]);
    assert_eq!(process(&invocation(payer, merchant), &mut ledger), Ok(()));
    assert_eq!(ledger.balance(&payer), Some(40_000_000));
    assert_eq!(ledger.balance(&merchant), Some(10_000_000));
    assert_eq!(
        ledger.events(),
        &vec![Purchase { buyer: payer, merchant, amount: 10_000_000, timestamp: 1_700_000_000 }]
    );
}

#[test]
fn underfunded_payer_fails_and_nothing_changes() {
    let (payer, merchant) = (key(1), key(2));
    let mut ledger = ledger_with(Some(1_700_000_000), &[(payer, 5_000_000), (merchant, 7)]);
    assert_eq!(
        process(&invocation(payer, merchant), &mut ledger),
        Err(BuyError::Transfer(TransferError::InsufficientFunds))
    );
    assert_eq!(ledger.balance(&payer), Some(5_000_000));
    assert_eq!(ledger.balance(&merchant), Some(7));
    assert!(ledger.events().is_empty());
}

#[test]
fn exact_balance_is_enough() {
    let (payer, merchant) = (key(1), key(2));
    let mut ledger = ledger_with(Some(5), &[(payer, 10_000_000), (merchant, 1)]);
    assert_eq!(process(&invocation(payer, merchant), &mut ledger), Ok(()));
    assert_eq!(ledger.balance(&payer), Some(0));
    assert_eq!(ledger.balance(&merchant), Some(10_000_001));
    assert_eq!(ledger.events().len(), 1);
}

#[test]
fn one_unit_short_fails() {
    let (payer, merchant) = (key(1), key(2));
    let mut ledger = ledger_with(Some(5), &[(payer, 9_999_999), (merchant, 1)]);
    assert_eq!(
        process(&invocation(payer, merchant), &mut ledger),
        Err(BuyError::Transfer(TransferError::InsufficientFunds))
    );
    assert_eq!(ledger.balance(&payer), Some(9_999_999));
    assert_eq!(ledger.balance(&merchant), Some(1));
    assert!(ledger.events().is_empty());
}

#[test]
fn unsigned_payer_is_refused_before_any_transfer() {
    let (payer, merchant) = (key(1), key(2));
    let mut ledger = ledger_with(Some(5), &[(payer, 50_000_000), (merchant, 0)]);
    let mut unsigned = invocation(payer, merchant);
    unsigned.payer.is_signer = false;
    assert_eq!(Buy::try_accounts(&unsigned), Err(BuyError::Authorization));
    assert_eq!(process(&unsigned, &mut ledger), Err(BuyError::Authorization));
    assert_eq!(ledger.balance(&payer), Some(50_000_000));
    assert_eq!(ledger.balance(&merchant), Some(0));
    assert!(ledger.events().is_empty());
}

#[test]
fn impostor_transfer_service_is_refused() {
    let (payer, merchant) = (key(1), key(2));
    let mut ledger = ledger_with(Some(5), &[(payer, 50_000_000), (merchant, 0)]);
    let mut forged = invocation(payer, merchant);
    forged.system_program.key = key(9);
    assert_eq!(Buy::try_accounts(&forged), Err(BuyError::InvalidProgram));
    assert_eq!(process(&forged, &mut ledger), Err(BuyError::InvalidProgram));
    assert_eq!(ledger.balance(&payer), Some(50_000_000));
    assert!(ledger.events().is_empty());
}

#[test]
fn unsigned_payer_is_reported_before_an_impostor_service() {
    let mut both = invocation(key(1), key(2));
    both.payer.is_signer = false;
    both.system_program.key = key(9);
    assert_eq!(Buy::try_accounts(&both), Err(BuyError::Authorization));
}

#[test]
fn repeated_underfunded_purchase_fails_the_same_way() {
    let (payer, merchant) = (key(1), key(2));
    let mut ledger = ledger_with(Some(5), &[(payer, 9_000_000), (merchant, 3)]);
    let first = process(&invocation(payer, merchant), &mut ledger);
    let second = process(&invocation(payer, merchant), &mut ledger);
    assert_eq!(first, Err(BuyError::Transfer(TransferError::InsufficientFunds)));
    assert_eq!(second, first);
    assert_eq!(ledger.balance(&payer), Some(9_000_000));
    assert_eq!(ledger.balance(&merchant), Some(3));
    assert!(ledger.events().is_empty());
}

#[test]
fn receipt_names_the_accounts_of_the_invocation() {
    let (payer, merchant) = (key(0xAB), key(0xCD));
    let mut ledger = ledger_with(Some(-12), &[(payer, 10_000_001), (merchant, 0)]);
    let ctx = Buy::try_accounts(&invocation(payer, merchant)).unwrap();
    assert_eq!(buy(&ctx, &mut ledger), Ok(()));
    let receipt = ledger.events()[0];
    assert_eq!(receipt.buyer.to_bytes(), [0xAB; 32]);
    assert_eq!(receipt.merchant.to_bytes(), [0xCD; 32]);
    assert_eq!(receipt.amount, 10_000_000);
    assert_eq!(receipt.timestamp, -12);
    assert!(receipt.timestamp >= ledger.clock().unwrap());
}

#[test]
fn each_purchase_moves_the_amount_again() {
    let (payer, merchant) = (key(1), key(2));
    let mut ledger = ledger_with(Some(100), &[(payer, 25_000_000), (merchant, 0)]);
    assert_eq!(process(&invocation(payer, merchant), &mut ledger), Ok(()));
    assert!(ledger.set_clock(Some(101)));
    assert_eq!(process(&invocation(payer, merchant), &mut ledger), Ok(()));
    assert_eq!(
        process(&invocation(payer, merchant), &mut ledger),
        Err(BuyError::Transfer(TransferError::InsufficientFunds))
    );
    assert_eq!(ledger.balance(&payer), Some(5_000_000));
    assert_eq!(ledger.balance(&merchant), Some(20_000_000));
    let stamps: Vec<i64> = ledger.events().iter().map(|e| e.timestamp).collect();
    assert_eq!(stamps, vec![100, 101]);
}

#[test]
fn other_accounts_are_untouched() {
    let (payer, merchant, other) = (key(1), key(2), key(3));
    let mut ledger = ledger_with(Some(1), &[(other, 77), (payer, 10_000_000), (merchant, 0)]);
    assert_eq!(process(&invocation(payer, merchant), &mut ledger), Ok(()));
    assert_eq!(ledger.balance(&other), Some(77));
    assert_eq!(ledger.balance(&key(4)), None);
}

#[test]
fn unreadable_clock_fails_the_purchase_and_undoes_the_transfer() {
    let (payer, merchant) = (key(1), key(2));
    let mut ledger = ledger_with(None, &[(payer, 50_000_000), (merchant, 0)]);
    assert_eq!(process(&invocation(payer, merchant), &mut ledger), Err(BuyError::ClockUnavailable));
    assert_eq!(ledger.balance(&payer), Some(50_000_000));
    assert_eq!(ledger.balance(&merchant), Some(0));
    assert!(ledger.events().is_empty());
}

#[test]
fn handler_alone_leaves_the_transfer_done_when_the_clock_fails() {
    let (payer, merchant) = (key(1), key(2));
    let mut ledger = ledger_with(None, &[(payer, 50_000_000), (merchant, 0)]);
    let ctx = Buy::try_accounts(&invocation(payer, merchant)).unwrap();
    assert_eq!(handle(&ctx, &mut ledger), Err(BuyError::ClockUnavailable));
    assert_eq!(ledger.balance(&payer), Some(40_000_000));
    assert_eq!(ledger.balance(&merchant), Some(10_000_000));
    assert!(ledger.events().is_empty());
}

#[test]
fn unknown_merchant_is_rejected() {
    let (payer, merchant) = (key(1), key(2));
    let mut ledger = ledger_with(Some(1), &[(payer, 50_000_000)]);
    assert_eq!(
        process(&invocation(payer, merchant), &mut ledger),
        Err(BuyError::Transfer(TransferError::Rejected))
    );
    assert_eq!(ledger.balance(&payer), Some(50_000_000));
    assert_eq!(ledger.balance(&merchant), None);
}

#[test]
fn unknown_payer_is_rejected() {
    let (payer, merchant) = (key(1), key(2));
    let mut ledger = ledger_with(Some(1), &[(merchant, 0)]);
    assert_eq!(
        process(&invocation(payer, merchant), &mut ledger),
        Err(BuyError::Transfer(TransferError::Rejected))
    );
    assert_eq!(ledger.balance(&merchant), Some(0));
}

#[test]
fn merchant_balance_that_would_overflow_is_rejected() {
    let (payer, merchant) = (key(1), key(2));
    let mut ledger =
        ledger_with(Some(1), &[(payer, 50_000_000), (merchant, u64::MAX - 9_999_999)]);
    assert_eq!(
        process(&invocation(payer, merchant), &mut ledger),
        Err(BuyError::Transfer(TransferError::Rejected))
    );
    assert_eq!(ledger.balance(&payer), Some(50_000_000));
    assert_eq!(ledger.balance(&merchant), Some(u64::MAX - 9_999_999));
}

#[test]
fn merchant_balance_may_reach_the_maximum() {
    let (payer, merchant) = (key(1), key(2));
    let mut ledger =
        ledger_with(Some(1), &[(payer, 50_000_000), (merchant, u64::MAX - 10_000_000)]);
    assert_eq!(process(&invocation(payer, merchant), &mut ledger), Ok(()));
    assert_eq!(ledger.balance(&merchant), Some(u64::MAX));
}

#[test]
fn paying_oneself_keeps_the_balance_and_emits_a_receipt() {
    let payer = key(1);
    let mut ledger = ledger_with(Some(9), &[(payer, 10_000_000)]);
    assert_eq!(process(&invocation(payer, payer), &mut ledger), Ok(()));
    assert_eq!(ledger.balance(&payer), Some(10_000_000));
    assert_eq!(
        ledger.events(),
        &vec![Purchase { buyer: payer, merchant: payer, amount: 10_000_000, timestamp: 9 }]
    );
}

#[test]
fn paying_oneself_still_needs_the_funds() {
    let payer = key(1);
    let mut ledger = ledger_with(Some(9), &[(payer, 9_999_999)]);
    assert_eq!(
        process(&invocation(payer, payer), &mut ledger),
        Err(BuyError::Transfer(TransferError::InsufficientFunds))
    );
}

fn asked(payer: Pubkey, merchant: Pubkey, answer: Result<(), TransferError>) -> HostCall {
    HostCall::Transfer {
        request: Some(TransferRequest { source: payer, destination: merchant, amount: 10_000_000 }),
        answer,
    }
}

#[test]
fn purchase_calls_transfer_then_clock_then_emit() {
    let (payer, merchant) = (key(1), key(2));
    let mut ledger = ledger_with(Some(42), &[(payer, 50_000_000), (merchant, 0)]);
    assert_eq!(process(&invocation(payer, merchant), &mut ledger), Ok(()));
    let receipt = Purchase { buyer: payer, merchant, amount: 10_000_000, timestamp: 42 };
    assert_eq!(
        ledger.journal(),
        &vec![
            asked(payer, merchant, Ok(())),
            HostCall::Clock { reading: Some(42) },
            HostCall::Emit { receipt },
        ]
    );
}

#[test]
fn refused_transfer_is_the_only_call_of_a_failed_purchase() {
    let (payer, merchant) = (key(1), key(2));
    let mut ledger = ledger_with(Some(42), &[(payer, 5_000_000), (merchant, 0)]);
    assert!(process(&invocation(payer, merchant), &mut ledger).is_err());
    assert_eq!(
        ledger.journal(),
        &vec![asked(payer, merchant, Err(TransferError::InsufficientFunds))]
    );
}

#[test]
fn unsigned_payer_causes_no_call_at_all() {
    let (payer, merchant) = (key(1), key(2));
    let mut ledger = ledger_with(Some(42), &[(payer, 50_000_000), (merchant, 0)]);
    let mut unsigned = invocation(payer, merchant);
    unsigned.payer.is_signer = false;
    assert_eq!(process(&unsigned, &mut ledger), Err(BuyError::Authorization));
    assert!(ledger.journal().is_empty());
}

#[test]
fn unreadable_clock_is_asked_after_the_transfer() {
    let (payer, merchant) = (key(1), key(2));
    let mut ledger = ledger_with(None, &[(payer, 50_000_000), (merchant, 0)]);
    assert_eq!(process(&invocation(payer, merchant), &mut ledger), Err(BuyError::ClockUnavailable));
    assert_eq!(
        ledger.journal(),
        &vec![asked(payer, merchant, Ok(())), HostCall::Clock { reading: None }]
    );
    assert_eq!(ledger.balance(&payer), Some(50_000_000));
}

#[test]
fn repeated_failures_add_up_only_in_the_journal() {
    let (payer, merchant) = (key(1), key(2));
    let mut ledger = ledger_with(Some(42), &[(payer, 1), (merchant, 0)]);
    assert!(process(&invocation(payer, merchant), &mut ledger).is_err());
    assert!(process(&invocation(payer, merchant), &mut ledger).is_err());
    assert_eq!(ledger.journal().len(), 2);
    assert_eq!(ledger.balance(&payer), Some(1));
    assert_eq!(ledger.balance(&merchant), Some(0));
    assert!(ledger.events().is_empty());
}
