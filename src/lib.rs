//! A two-party escrow: a seller opens a trade for an amount, a buyer funds it
//! into custody, and the funds are released to the seller on the buyer's
//! confirmation or returned to the buyer on refund. Each operation checks the
//! caller and the trade's status before anything changes, and the status only
//! moves forward: `Created -> {Funded, Cancelled}`, `Funded -> {Completed,
//! Cancelled}`.
//!
//! Moving funds is left to the caller: an operation that needs a transfer
//! first returns it as a plan (`fund_transfer`, `complete_transfer`,
//! `refund_transfer`) and then commits once told how the transfer went.

pub mod error;
pub mod escrow;
pub mod key;
pub mod lifecycle;
pub mod status;
