use vstd::prelude::*;

verus! {

/// Where a trade stands. `Completed` and `Cancelled` are terminal.
#[derive(Clone, Copy, Debug, PartialEq, Eq, Structural)]
pub enum TradeStatus {
    Created,
    Funded,
    Completed,
    Cancelled,
}

/// The edges of the lifecycle: `Created -> Funded`, `Created -> Cancelled`,
/// `Funded -> Completed`, `Funded -> Cancelled`.
pub open spec fn is_edge(from: TradeStatus, to: TradeStatus) -> bool {
    match from {
        TradeStatus::Created => to == TradeStatus::Funded || to == TradeStatus::Cancelled,
        TradeStatus::Funded => to == TradeStatus::Completed || to == TradeStatus::Cancelled,
        _ => false,
    }
}

/// `to` can be reached from `from` along zero or more edges.
pub open spec fn reaches(from: TradeStatus, to: TradeStatus) -> bool {
    from == to || is_edge(from, to) || (from == TradeStatus::Created && to
        == TradeStatus::Completed)
}

/// Depth of a status in the lifecycle; every edge increases it.
pub open spec fn depth(s: TradeStatus) -> nat {
    match s {
        TradeStatus::Created => 0,
        TradeStatus::Funded => 1,
        _ => 2,
    }
}

pub open spec fn is_terminal(s: TradeStatus) -> bool {
    s == TradeStatus::Completed || s == TradeStatus::Cancelled
}

} // verus!
