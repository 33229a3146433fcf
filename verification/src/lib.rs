//! A purchase instruction for an account ledger: one call moves a fixed amount
//! from a payer to a merchant and records a receipt.

pub mod handler;
pub mod instruction;
pub mod laws;
pub mod ledger;
pub mod program;
pub mod pubkey;

pub use handler::{Buy, BuyError, Invocation, Purchase, TransferError, TRANSFER_AMOUNT};
pub use program::{buy, process};
