use vstd::prelude::*;

verus! {

/// Error taxonomy of the settlement engine. Every failed operation is
/// terminal for that invocation and leaves the contract and its escrow
/// completely unchanged, so a caller may retry blindly once the triggering
/// condition has passed.
#[derive(Clone, Copy, Debug, PartialEq, Eq, Structural)]
pub enum ErrorCode {
    /// A creation parameter violates a contract invariant.
    InvalidParameters,
    /// The operation is not valid in the contract's current state.
    InvalidContractStatus,
    /// Settlement was attempted before the expiry timestamp.
    ContractNotExpired,
    /// Reserved: no current path drains the escrow below what it owes.
    InsufficientFunds,
    /// The side's funding flag was already set.
    AlreadyFunded,
    /// Cancellation was attempted before the funding deadline.
    FundingDeadlineNotPassed,
    /// The price feed record is undersized, not trading, stale, too wide
    /// in confidence, or overflows during normalization.
    OracleFeedError,
}

} // verus!
