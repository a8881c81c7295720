use vstd::prelude::*;

verus! {

/// A failure reported by the custody transfer, carried through unchanged.
#[derive(Clone, Copy, Debug, PartialEq, Eq, Structural)]
pub struct TransferError {
    pub code: u32,
}

/// Why an escrow operation was rejected. A rejected operation changes nothing.
#[derive(Clone, Copy, Debug, PartialEq, Eq, Structural)]
pub enum EscrowError {
    /// The caller is not the buyer bound to the escrow.
    WrongBuyer,
    /// The caller, or the payee, is not the escrow's seller.
    WrongSeller,
    /// The escrow is not in a status from which the operation may start.
    InvalidStatus,
    /// A buyer is already bound to the escrow.
    AlreadyHasBuyer,
    /// An escrow must hold a positive amount.
    ZeroAmount,
    /// The custody transfer failed.
    TransferFailed(TransferError),
}

impl EscrowError {
    /// A human-readable description of the error.
    pub fn message(&self) -> (r: &'static str) {
        match self {
            EscrowError::WrongBuyer => "The buyer provided does not match the escrow's buyer.",
            EscrowError::WrongSeller => "The seller provided does not match the escrow's seller.",
            EscrowError::InvalidStatus => "The escrow is not in a valid state for this action.",
            EscrowError::AlreadyHasBuyer => "The escrow already has a buyer assigned.",
            EscrowError::ZeroAmount => "The escrow amount must be greater than zero.",
            EscrowError::TransferFailed(_) => "The custody transfer failed.",
        }
    }
}

} // verus!
