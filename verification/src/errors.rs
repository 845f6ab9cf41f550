use vstd::prelude::*;

verus! {

/// Reasons for which an entry point rejects a call outright. In the deployed
/// setting every one of these aborts the whole call, so all state mutations
/// of that call roll back; they are distinct from the graceful refund paths
/// (an undecodable message, or an overflowing conversion), which succeed and
/// hand the deposit back unconsumed.
#[derive(Clone, Copy, Debug, PartialEq, Eq, Structural)]
pub enum ContractError {
    /// A privileged operation was attempted by a caller other than the owner.
    Unauthorized,
    /// A rate change to the value the rate already has.
    NoOpRateChange,
    /// A deposit purpose was notified by a ledger other than the one
    /// designated for that purpose.
    WrongLedger,
    /// A conversion whose output, after truncation, is zero.
    OutputTooSmall,
    /// A conversion whose output exceeds the out-token reserve.
    InsufficientReserve,
}

} // verus!
