use vstd::prelude::*;

use crate::error::{EscrowError, TransferError};
use crate::escrow::{EscrowAccount, Op};
use crate::key::Pubkey;
use crate::status::{depth, is_edge, is_terminal, reaches, TradeStatus};

verus! {

/// Every edge of the lifecycle goes strictly deeper, so the lifecycle has no
/// cycle, and terminal statuses have no way out.
pub proof fn lemma_edges_go_deeper(from: TradeStatus, to: TradeStatus)
    ensures
        is_edge(from, to) ==> depth(from) < depth(to),
        is_terminal(from) ==> !is_edge(from, to),
        reaches(from, to) && reaches(to, from) ==> from == to,
{
}

/// One operation on a well-formed escrow leaves it well-formed, keeps its
/// seller, amount and listing, never unbinds or rebinds a buyer, and either
/// leaves the status alone or follows one edge of the lifecycle. A rejected
/// operation changes nothing.
pub proof fn lemma_step_moves_forward(rec: EscrowAccount, op: Op)
    requires
        rec.wf(),
    ensures
        ({
            let (next, r) = rec.step(op);
            &&& next.wf()
            &&& next.seller == rec.seller
            &&& next.amount == rec.amount
            &&& next.listing_id == rec.listing_id
            &&& (rec.status != TradeStatus::Created ==> next.buyer == rec.buyer)
            &&& (next.status == rec.status || is_edge(rec.status, next.status))
            &&& (r is Err ==> next == rec)
            &&& (r is Ok ==> is_edge(rec.status, next.status))
        }),
{
    match op {
        Op::Fund { caller, outcome } => {
            assert(rec.step(op) == rec.fund_step(caller, outcome));
        },
        Op::Complete { buyer, seller, outcome } => {
            assert(rec.step(op) == rec.complete_step(buyer, seller, outcome));
        },
        Op::Cancel { caller } => {
            assert(rec.step(op) == rec.cancel_step(caller));
        },
        Op::Refund { buyer, outcome } => {
            assert(rec.step(op) == rec.refund_step(buyer, outcome));
        },
    }
}

/// Completing an escrow that was never funded is refused with
/// `InvalidStatus`, whoever asks, and changes nothing.
pub proof fn lemma_no_skip_to_completed(
    rec: EscrowAccount,
    buyer: Pubkey,
    seller: Pubkey,
    outcome: Result<(), TransferError>,
)
    requires
        rec.status == TradeStatus::Created,
    ensures
        rec.complete_plan(buyer, seller) == Err::<crate::escrow::Transfer, EscrowError>(
            EscrowError::InvalidStatus,
        ),
        rec.complete_step(buyer, seller, outcome) == (rec, Err::<(), EscrowError>(
            EscrowError::InvalidStatus,
        )),
{
}

/// Over any sequence of operations, a well-formed escrow stays well-formed,
/// its status only moves forward along the lifecycle, and its seller and
/// amount never change.
pub proof fn lemma_run_moves_forward(rec: EscrowAccount, ops: Seq<Op>)
    requires
        rec.wf(),
    ensures
        rec.run(ops).wf(),
        reaches(rec.status, rec.run(ops).status),
        rec.run(ops).seller == rec.seller,
        rec.run(ops).amount == rec.amount,
        rec.status != TradeStatus::Created ==> rec.run(ops).buyer == rec.buyer,
    decreases ops.len(),
{
    if ops.len() > 0 {
        let next = rec.step(ops[0]).0;
        lemma_step_moves_forward(rec, ops[0]);
        lemma_run_moves_forward(next, ops.drop_first());
    }
}

/// Once Fund has succeeded, funding again with the same buyer is refused
/// with `InvalidStatus`: no second transfer is asked for and nothing changes.
pub proof fn lemma_fund_twice_rejected(
    rec: EscrowAccount,
    buyer: Pubkey,
    first: Result<(), TransferError>,
    second: Result<(), TransferError>,
)
    requires
        rec.fund_step(buyer, first).1 is Ok,
    ensures
        ({
            let next = rec.fund_step(buyer, first).0;
            &&& next.fund_plan(buyer) == Err::<crate::escrow::Transfer, EscrowError>(
                EscrowError::InvalidStatus,
            )
            &&& next.fund_step(buyer, second) == (next, Err::<(), EscrowError>(
                EscrowError::InvalidStatus,
            ))
        }),
{
}

} // verus!
