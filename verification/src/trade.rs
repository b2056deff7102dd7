use vstd::prelude::*;

verus! {

/// The states of a trade escrow.
#[derive(Debug, Clone, Copy, PartialEq, Eq)]
pub enum EscrowStatus {
    AwaitingArrival,
    FundsLocked,
    Settled,
    Disputed,
}

} // verus!
