//! The purchase handler.
//!
//! A purchase is decided here and carried out by the ledger that hosts the
//! program. The handler says which transfer to ask for, what to do when the
//! transfer service answers, and which receipt to emit once the ledger's clock
//! has been read. It never touches a balance itself.

use vstd::prelude::*;
use crate::instruction::{
    is_system_transfer, request_of, system_program_bytes, system_program_id, transfer_instruction,
    Instruction, TransferRequest,
};
use crate::pubkey::Pubkey;

verus! {

/// The number of minor units that one purchase moves from the payer to the
/// merchant.
pub const TRANSFER_AMOUNT: u64 = 10_000_000;

/// An account as the ledger hands it to a program: its identifier, and whether
/// its holder signed the enclosing transaction.
#[derive(Clone, Copy, Debug, PartialEq, Eq)]
pub struct AccountInfo {
    pub key: Pubkey,
    pub is_signer: bool,
}

/// Why the transfer service refused a request.
#[derive(Clone, Copy, Debug, PartialEq, Eq)]
pub enum TransferError {
    /// The source holds less than the amount asked for.
    InsufficientFunds,
    /// The source did not authorize the transfer.
    MissingSignature,
    /// Any other refusal.
    Rejected,
}

/// The host's code for the system program's own error number 1, with which it
/// reports that an account does not hold enough for the operation.
pub const CODE_RESULT_WITH_NEGATIVE_LAMPORTS: u64 = 1;

/// The host's code for a program error of insufficient funds: the number 6 in
/// the upper half of the code.
pub const CODE_INSUFFICIENT_FUNDS: u64 = 0x6_0000_0000;

/// The host's code for a program error of a missing required signature: the
/// number 8 in the upper half of the code.
pub const CODE_MISSING_REQUIRED_SIGNATURE: u64 = 0x8_0000_0000;

impl TransferError {
    /// The refusal that the host's error code `code` stands for.
    pub open spec fn of_code(code: u64) -> TransferError {
        if code == CODE_RESULT_WITH_NEGATIVE_LAMPORTS || code == CODE_INSUFFICIENT_FUNDS {
            TransferError::InsufficientFunds
        } else if code == CODE_MISSING_REQUIRED_SIGNATURE {
            TransferError::MissingSignature
        } else {
            TransferError::Rejected
        }
    }

    /// Reads the error code with which the host reports a failed transfer.
    pub fn from_code(code: u64) -> (refusal: TransferError)
        ensures
            refusal == TransferError::of_code(code),
    {
        if code == CODE_RESULT_WITH_NEGATIVE_LAMPORTS || code == CODE_INSUFFICIENT_FUNDS {
            TransferError::InsufficientFunds
        } else if code == CODE_MISSING_REQUIRED_SIGNATURE {
            TransferError::MissingSignature
        } else {
            TransferError::Rejected
        }
    }
}

/// Why a purchase failed.
#[derive(Clone, Copy, Debug, PartialEq, Eq)]
pub enum BuyError {
    /// The payer did not sign the transaction.
    Authorization,
    /// The account offered as the transfer service is not the system program.
    InvalidProgram,
    /// The transfer service refused the transfer.
    Transfer(TransferError),
    /// The ledger could not supply a timestamp.
    ClockUnavailable,
}

/// The receipt of one purchase.
#[derive(Clone, Copy, Debug, PartialEq, Eq)]
pub struct Purchase {
    pub buyer: Pubkey,
    pub merchant: Pubkey,
    pub amount: u64,
    pub timestamp: i64,
}

/// An account whose holder is known to have signed the transaction.
#[derive(Clone, Copy, Debug, PartialEq, Eq)]
pub struct Signer {
    info: AccountInfo,
}

/// An account about which nothing is known but its identifier. Whoever names
/// it vouches for it; the handler does not.
#[derive(Clone, Copy, Debug, PartialEq, Eq)]
pub struct UncheckedAccount {
    info: AccountInfo,
}

/// An account known to be the system program.
#[derive(Clone, Copy, Debug, PartialEq, Eq)]
pub struct Program {
    info: AccountInfo,
}

impl View for Signer {
    type V = AccountInfo;

    closed spec fn view(&self) -> AccountInfo {
        self.info
    }
}

impl View for UncheckedAccount {
    type V = AccountInfo;

    closed spec fn view(&self) -> AccountInfo {
        self.info
    }
}

impl View for Program {
    type V = AccountInfo;

    closed spec fn view(&self) -> AccountInfo {
        self.info
    }
}

impl Signer {
    #[verifier::type_invariant]
    spec fn signed(&self) -> bool {
        self.info.is_signer
    }

    /// Accepts `info` if its holder signed.
    pub fn try_from(info: AccountInfo) -> (r: Result<Signer, BuyError>)
        ensures
            info.is_signer ==> r is Ok && r->Ok_0@ == info,
            !info.is_signer ==> r == Err::<Signer, BuyError>(BuyError::Authorization),
    {
        if info.is_signer {
            Ok(Signer { info })
        } else {
            Err(BuyError::Authorization)
        }
    }

    /// The account's identifier.
    pub fn key(&self) -> (key: Pubkey)
        ensures
            key == self@.key,
    {
        self.info.key
    }

    /// The account as the ledger handed it over. Its holder signed.
    pub fn to_account_info(&self) -> (info: AccountInfo)
        ensures
            info == self@,
            info.is_signer,
    {
        proof {
            use_type_invariant(self);
        }
        self.info
    }
}

impl UncheckedAccount {
    /// Accepts any account.
    pub fn new(info: AccountInfo) -> (account: UncheckedAccount)
        ensures
            account@ == info,
    {
        UncheckedAccount { info }
    }

    /// The account's identifier.
    pub fn key(&self) -> (key: Pubkey)
        ensures
            key == self@.key,
    {
        self.info.key
    }

    /// The account as the ledger handed it over.
    pub fn to_account_info(&self) -> (info: AccountInfo)
        ensures
            info == self@,
    {
        self.info
    }
}

impl Program {
    #[verifier::type_invariant]
    spec fn genuine(&self) -> bool {
        self.info.key@ == system_program_bytes()
    }

    /// Accepts `info` if it is the system program.
    pub fn try_from(info: AccountInfo) -> (r: Result<Program, BuyError>)
        ensures
            info.key@ == system_program_bytes() ==> r is Ok && r->Ok_0@ == info,
            info.key@ != system_program_bytes() ==> r == Err::<Program, BuyError>(
                BuyError::InvalidProgram,
            ),
    {
        let system = system_program_id();
        if info.key.same(&system) {
            Ok(Program { info })
        } else {
            Err(BuyError::InvalidProgram)
        }
    }

    /// The account's identifier.
    pub fn key(&self) -> (key: Pubkey)
        ensures
            key == self@.key,
    {
        self.info.key
    }

    /// The account as the ledger handed it over. It is the system program.
    pub fn to_account_info(&self) -> (info: AccountInfo)
        ensures
            info == self@,
            info.key@ == system_program_bytes(),
    {
        proof {
            use_type_invariant(self);
        }
        self.info
    }
}

/// The accounts with which the ledger invokes a purchase, as they arrive:
/// nothing about them has been checked yet.
#[derive(Clone, Copy, Debug, PartialEq, Eq)]
pub struct Invocation {
    /// Pays.
    pub payer: AccountInfo,
    /// Is paid.
    pub merchant: AccountInfo,
    /// Offered as the transfer service.
    pub system_program: AccountInfo,
}

impl Invocation {
    /// What the check before the handler says: it refuses a payer who did not
    /// sign, then an account that poses as the transfer service. The merchant
    /// is taken as given.
    pub open spec fn admission(&self) -> Result<(), BuyError> {
        if !self.payer.is_signer {
            Err(BuyError::Authorization)
        } else if self.system_program.key@ != system_program_bytes() {
            Err(BuyError::InvalidProgram)
        } else {
            Ok(())
        }
    }

    /// The payer signed and the transfer service is the system program.
    pub open spec fn admitted(&self) -> bool {
        self.admission() is Ok
    }

    /// The transfer that a purchase asks for.
    pub open spec fn request(&self) -> TransferRequest {
        TransferRequest {
            source: self.payer.key,
            destination: self.merchant.key,
            amount: TRANSFER_AMOUNT,
        }
    }

    /// The accounts handed to the transfer service: payer, merchant, and the
    /// service's own account.
    pub open spec fn accounts(&self) -> Seq<AccountInfo> {
        seq![self.payer, self.merchant, self.system_program]
    }

    /// The receipt of a purchase whose transfer was followed by a clock
    /// reading of `timestamp`.
    pub open spec fn receipt(&self, timestamp: i64) -> Purchase {
        Purchase {
            buyer: self.payer.key,
            merchant: self.merchant.key,
            amount: TRANSFER_AMOUNT,
            timestamp,
        }
    }
}

/// The accounts of one purchase, each checked as far as its kind promises.
#[derive(Clone, Copy, Debug, PartialEq, Eq)]
pub struct Buy {
    /// Pays. Has signed.
    pub payer: Signer,
    /// Is paid. Any account; no signature is asked of it.
    pub merchant: UncheckedAccount,
    /// The transfer service.
    pub system_program: Program,
}

/// A call to the transfer service: the instruction, and the accounts that the
/// caller hands over with it.
#[derive(Debug, PartialEq, Eq)]
pub struct TransferCall {
    pub instruction: Instruction,
    pub accounts: Vec<AccountInfo>,
}

impl View for Buy {
    type V = Invocation;

    open spec fn view(&self) -> Invocation {
        Invocation {
            payer: self.payer@,
            merchant: self.merchant@,
            system_program: self.system_program@,
        }
    }
}

impl Buy {
    /// Checks the accounts of a purchase before the handler runs.
    pub fn try_accounts(invocation: &Invocation) -> (r: Result<Buy, BuyError>)
        ensures
            match invocation.admission() {
                Ok(_) => r is Ok && r->Ok_0@ == *invocation,
                Err(e) => r == Err::<Buy, BuyError>(e),
            },
    {
        let payer = match Signer::try_from(invocation.payer) {
            Ok(signer) => signer,
            Err(e) => { return Err(e); },
        };
        let merchant = UncheckedAccount::new(invocation.merchant);
        let system_program = match Program::try_from(invocation.system_program) {
            Ok(program) => program,
            Err(e) => { return Err(e); },
        };
        Ok(Buy { payer, merchant, system_program })
    }

    /// The call with which a purchase begins: a transfer of the fixed amount
    /// from the payer to the merchant, with the three accounts of the context.
    /// A context has passed the check, so the payer among them is a signer.
    pub fn transfer_call(&self) -> (call: TransferCall)
        ensures
            self@.admitted(),
            is_system_transfer(
                call.instruction,
                self@.payer.key,
                self@.merchant.key,
                TRANSFER_AMOUNT,
            ),
            request_of(call.instruction) == Some(self@.request()),
            call.accounts@ == self@.accounts(),
    {
        let payer = self.payer.to_account_info();
        let merchant = self.merchant.to_account_info();
        let program = self.system_program.to_account_info();
        let instruction = transfer_instruction(&payer.key, &merchant.key, TRANSFER_AMOUNT);
        let mut accounts: Vec<AccountInfo> = Vec::new();
        accounts.push(payer);
        accounts.push(merchant);
        accounts.push(program);
        TransferCall { instruction, accounts }
    }

    /// What follows the clock reading. With a timestamp the purchase ends in
    /// its receipt, to be emitted; without one it fails.
    pub fn on_clock(&self, reading: Option<i64>) -> (r: Result<Purchase, BuyError>)
        ensures
            r == match reading {
                Some(timestamp) => Ok::<Purchase, BuyError>(self@.receipt(timestamp)),
                None => Err::<Purchase, BuyError>(BuyError::ClockUnavailable),
            },
    {
        match reading {
            Some(timestamp) => Ok(
                Purchase {
                    buyer: self.payer.key(),
                    merchant: self.merchant.key(),
                    amount: TRANSFER_AMOUNT,
                    timestamp,
                },
            ),
            None => Err(BuyError::ClockUnavailable),
        }
    }
}

/// What follows the transfer service's answer. After a transfer the clock is
/// read next; after a refusal the purchase fails with that refusal, and
/// nothing more is done.
pub fn on_transfer(outcome: Result<(), TransferError>) -> (r: Result<(), BuyError>)
    ensures
        r == match outcome {
            Ok(_) => Ok::<(), BuyError>(()),
            Err(e) => Err::<(), BuyError>(BuyError::Transfer(e)),
        },
{
    match outcome {
        Ok(_) => Ok(()),
        Err(e) => Err(BuyError::Transfer(e)),
    }
}

} // verus!
