use vstd::prelude::*;

use crate::error::{EscrowError, TransferError};
use crate::key::{unset_key, Pubkey};
use crate::status::TradeStatus;

verus! {

/// One side of a custody transfer: a party's own balance, or the escrow's custody.
#[derive(Clone, Copy, Debug, PartialEq, Eq)]
pub enum Endpoint {
    Party(Pubkey),
    Custody,
}

/// A movement of `amount` from one balance to another, which the escrow asks
/// the custody substrate to perform.
#[derive(Clone, Copy, Debug, PartialEq, Eq)]
pub struct Transfer {
    pub from: Endpoint,
    pub to: Endpoint,
    pub amount: u64,
}

/// The durable state of one trade.
///
/// The buyer is bound by the first party that funds the escrow. Funds in
/// custody sit in a vault whose signing authority is derived from the escrow's
/// own key and `bump`. `expire_at` is recorded and never enforced.
#[derive(Clone, Copy, Debug)]
pub struct EscrowAccount {
    pub seller: Pubkey,
    pub buyer: Pubkey,
    pub listing_id: u64,
    pub amount: u64,
    pub status: TradeStatus,
    pub created_at: i64,
    pub expire_at: i64,
    pub bump: u8,
}

/// What an operation leaves behind: the record after it, and its verdict.
pub type Outcome = (EscrowAccount, Result<(), EscrowError>);

/// An operation on an existing escrow, with what the custody transfer it
/// asks for reported (ignored where no transfer is made).
#[derive(Clone, Copy, Debug)]
pub enum Op {
    Fund { caller: Pubkey, outcome: Result<(), TransferError> },
    Complete { buyer: Pubkey, seller: Pubkey, outcome: Result<(), TransferError> },
    Cancel { caller: Pubkey },
    Refund { buyer: Pubkey, outcome: Result<(), TransferError> },
}

impl EscrowAccount {
    /// A positive amount is held; the buyer is unset while the status is
    /// `Created` and bound once the escrow is `Funded` or `Completed`. (An
    /// escrow cancelled before funding stays without a buyer.)
    pub open spec fn wf(self) -> bool {
        &&& self.amount > 0
        &&& (self.status == TradeStatus::Created ==> !self.has_buyer())
        &&& (self.status == TradeStatus::Funded || self.status == TradeStatus::Completed
            ==> self.has_buyer())
    }

    pub open spec fn has_buyer(self) -> bool {
        self.buyer@ != unset_key()
    }

    /// The record that Create produces.
    pub open spec fn is_initial(
        self,
        seller: Pubkey,
        listing_id: u64,
        amount: u64,
        created_at: i64,
        expire_at: i64,
        bump: u8,
    ) -> bool {
        &&& self.seller == seller
        &&& self.buyer@ == unset_key()
        &&& self.listing_id == listing_id
        &&& self.amount == amount
        &&& self.status == TradeStatus::Created
        &&& self.created_at == created_at
        &&& self.expire_at == expire_at
        &&& self.bump == bump
    }

    /// Applies a transfer plan: a rejected plan or a failed transfer leaves
    /// the record as it was; otherwise the record becomes `next`.
    pub open spec fn settle<T>(
        self,
        plan: Result<T, EscrowError>,
        outcome: Result<(), TransferError>,
        next: EscrowAccount,
    ) -> Outcome {
        match plan {
            Err(e) => (self, Err(e)),
            Ok(_) => match outcome {
                Err(t) => (self, Err(EscrowError::TransferFailed(t))),
                Ok(_) => (next, Ok(())),
            },
        }
    }

    /// Fund: the unset identity is never bound; a caller other than a bound
    /// buyer is refused; only a `Created` escrow is funded. The caller pays
    /// `amount` into custody.
    pub open spec fn fund_plan(self, caller: Pubkey) -> Result<Transfer, EscrowError> {
        if caller@ == unset_key() {
            Err(EscrowError::WrongBuyer)
        } else if self.has_buyer() && self.buyer@ != caller@ {
            Err(EscrowError::WrongBuyer)
        } else if self.status != TradeStatus::Created {
            Err(EscrowError::InvalidStatus)
        } else {
            Ok(Transfer { from: Endpoint::Party(caller), to: Endpoint::Custody, amount: self.amount })
        }
    }

    pub open spec fn fund_step(self, caller: Pubkey, outcome: Result<(), TransferError>) -> Outcome {
        self.settle(
            self.fund_plan(caller),
            outcome,
            EscrowAccount { buyer: caller, status: TradeStatus::Funded, ..self },
        )
    }

    /// Complete: only a `Funded` escrow, confirmed by its buyer, pays its
    /// seller `amount` out of custody.
    pub open spec fn complete_plan(self, buyer: Pubkey, seller: Pubkey) -> Result<
        Transfer,
        EscrowError,
    > {
        if self.status != TradeStatus::Funded {
            Err(EscrowError::InvalidStatus)
        } else if self.buyer@ != buyer@ {
            Err(EscrowError::WrongBuyer)
        } else if self.seller@ != seller@ {
            Err(EscrowError::WrongSeller)
        } else {
            Ok(Transfer { from: Endpoint::Custody, to: Endpoint::Party(self.seller), amount: self.amount })
        }
    }

    pub open spec fn complete_step(
        self,
        buyer: Pubkey,
        seller: Pubkey,
        outcome: Result<(), TransferError>,
    ) -> Outcome {
        self.settle(
            self.complete_plan(buyer, seller),
            outcome,
            EscrowAccount { status: TradeStatus::Completed, ..self },
        )
    }

    /// Cancel: the seller withdraws a `Created` escrow that no buyer has
    /// engaged with. No funds move.
    pub open spec fn cancel_step(self, caller: Pubkey) -> Outcome {
        if self.seller@ != caller@ {
            (self, Err(EscrowError::WrongSeller))
        } else if self.status != TradeStatus::Created {
            (self, Err(EscrowError::InvalidStatus))
        } else if self.has_buyer() {
            (self, Err(EscrowError::AlreadyHasBuyer))
        } else {
            (EscrowAccount { status: TradeStatus::Cancelled, ..self }, Ok(()))
        }
    }

    /// Refund: the buyer of a `Funded` escrow takes `amount` back out of
    /// custody, and the escrow ends `Cancelled`.
    pub open spec fn refund_plan(self, buyer: Pubkey) -> Result<Transfer, EscrowError> {
        if self.status != TradeStatus::Funded {
            Err(EscrowError::InvalidStatus)
        } else if self.buyer@ != buyer@ {
            Err(EscrowError::WrongBuyer)
        } else {
            Ok(Transfer { from: Endpoint::Custody, to: Endpoint::Party(self.buyer), amount: self.amount })
        }
    }

    pub open spec fn refund_step(self, buyer: Pubkey, outcome: Result<(), TransferError>) -> Outcome {
        self.settle(
            self.refund_plan(buyer),
            outcome,
            EscrowAccount { status: TradeStatus::Cancelled, ..self },
        )
    }

    pub open spec fn step(self, op: Op) -> Outcome {
        match op {
            Op::Fund { caller, outcome } => self.fund_step(caller, outcome),
            Op::Complete { buyer, seller, outcome } => self.complete_step(buyer, seller, outcome),
            Op::Cancel { caller } => self.cancel_step(caller),
            Op::Refund { buyer, outcome } => self.refund_step(buyer, outcome),
        }
    }

    /// The record after each operation of `ops` in turn, rejected ones included.
    pub open spec fn run(self, ops: Seq<Op>) -> EscrowAccount
        decreases ops.len(),
    {
        if ops.len() == 0 {
            self
        } else {
            self.step(ops[0]).0.run(ops.drop_first())
        }
    }

    /// Create: a new escrow for `seller`, with no buyer yet. A zero amount is
    /// refused.
    pub fn init_escrow(
        seller: Pubkey,
        listing_id: u64,
        amount: u64,
        created_at: i64,
        expire_at: i64,
        bump: u8,
    ) -> (r: Result<EscrowAccount, EscrowError>)
        ensures
            amount == 0 ==> r == Err::<EscrowAccount, EscrowError>(EscrowError::ZeroAmount),
            amount > 0 ==> r is Ok && r->Ok_0.is_initial(
                seller,
                listing_id,
                amount,
                created_at,
                expire_at,
                bump,
            ) && r->Ok_0.wf(),
    {
        if amount == 0 {
            return Err(EscrowError::ZeroAmount);
        }
        Ok(
            EscrowAccount {
                seller,
                buyer: Pubkey::unset(),
                listing_id,
                amount,
                status: TradeStatus::Created,
                created_at,
                expire_at,
                bump,
            },
        )
    }

    /// Checks Fund for `caller` and returns the transfer it needs.
    pub fn fund_transfer(&self, caller: &Pubkey) -> (r: Result<Transfer, EscrowError>)
        ensures
            r == self.fund_plan(*caller),
    {
        if caller.is_unset() {
            Err(EscrowError::WrongBuyer)
        } else if !self.buyer.is_unset() && !(self.buyer == *caller) {
            Err(EscrowError::WrongBuyer)
        } else if self.status != TradeStatus::Created {
            Err(EscrowError::InvalidStatus)
        } else {
            Ok(Transfer { from: Endpoint::Party(*caller), to: Endpoint::Custody, amount: self.amount })
        }
    }

    /// Fund, given how the transfer of `fund_transfer` went: binds the buyer
    /// and marks the escrow `Funded`.
    pub fn fund(&mut self, caller: Pubkey, outcome: Result<(), TransferError>) -> (r: Result<
        (),
        EscrowError,
    >)
        ensures
            (*final(self), r) == old(self).fund_step(caller, outcome),
    {
        match self.fund_transfer(&caller) {
            Err(e) => Err(e),
            Ok(_) => match outcome {
                Err(t) => Err(EscrowError::TransferFailed(t)),
                Ok(()) => {
                    self.buyer = caller;
                    self.status = TradeStatus::Funded;
                    Ok(())
                },
            },
        }
    }

    /// Checks Complete and returns the payout to the seller that it needs.
    pub fn complete_transfer(&self, buyer: &Pubkey, seller: &Pubkey) -> (r: Result<
        Transfer,
        EscrowError,
    >)
        ensures
            r == self.complete_plan(*buyer, *seller),
    {
        if self.status != TradeStatus::Funded {
            Err(EscrowError::InvalidStatus)
        } else if !(self.buyer == *buyer) {
            Err(EscrowError::WrongBuyer)
        } else if !(self.seller == *seller) {
            Err(EscrowError::WrongSeller)
        } else {
            Ok(Transfer { from: Endpoint::Custody, to: Endpoint::Party(self.seller), amount: self.amount })
        }
    }

    /// Complete, given how the payout of `complete_transfer` went.
    pub fn complete(&mut self, buyer: Pubkey, seller: Pubkey, outcome: Result<(), TransferError>) -> (r:
        Result<(), EscrowError>)
        ensures
            (*final(self), r) == old(self).complete_step(buyer, seller, outcome),
    {
        match self.complete_transfer(&buyer, &seller) {
            Err(e) => Err(e),
            Ok(_) => match outcome {
                Err(t) => Err(EscrowError::TransferFailed(t)),
                Ok(()) => {
                    self.status = TradeStatus::Completed;
                    Ok(())
                },
            },
        }
    }

    /// Cancel, by `caller`. The record is kept, marked `Cancelled`.
    pub fn cancel(&mut self, caller: Pubkey) -> (r: Result<(), EscrowError>)
        ensures
            (*final(self), r) == old(self).cancel_step(caller),
    {
        if !(self.seller == caller) {
            Err(EscrowError::WrongSeller)
        } else if self.status != TradeStatus::Created {
            Err(EscrowError::InvalidStatus)
        } else if !self.buyer.is_unset() {
            Err(EscrowError::AlreadyHasBuyer)
        } else {
            self.status = TradeStatus::Cancelled;
            Ok(())
        }
    }

    /// Checks Refund and returns the repayment to the buyer that it needs.
    pub fn refund_transfer(&self, buyer: &Pubkey) -> (r: Result<Transfer, EscrowError>)
        ensures
            r == self.refund_plan(*buyer),
    {
        if self.status != TradeStatus::Funded {
            Err(EscrowError::InvalidStatus)
        } else if !(self.buyer == *buyer) {
            Err(EscrowError::WrongBuyer)
        } else {
            Ok(Transfer { from: Endpoint::Custody, to: Endpoint::Party(self.buyer), amount: self.amount })
        }
    }

    /// Refund, given how the repayment of `refund_transfer` went.
    pub fn refund(&mut self, buyer: Pubkey, outcome: Result<(), TransferError>) -> (r: Result<
        (),
        EscrowError,
    >)
        ensures
            (*final(self), r) == old(self).refund_step(buyer, outcome),
    {
        match self.refund_transfer(&buyer) {
            Err(e) => Err(e),
            Ok(_) => match outcome {
                Err(t) => Err(EscrowError::TransferFailed(t)),
                Ok(()) => {
                    self.status = TradeStatus::Cancelled;
                    Ok(())
                },
            },
        }
    }

    /// Performs one operation.
    pub fn apply(&mut self, op: Op) -> (r: Result<(), EscrowError>)
        ensures
            (*final(self), r) == old(self).step(op),
    {
        match op {
            Op::Fund { caller, outcome } => self.fund(caller, outcome),
            Op::Complete { buyer, seller, outcome } => self.complete(buyer, seller, outcome),
            Op::Cancel { caller } => self.cancel(caller),
            Op::Refund { buyer, outcome } => self.refund(buyer, outcome),
        }
    }
}

} // verus!
