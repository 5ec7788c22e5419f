use vstd::prelude::*;
use crate::ids::ContractId;

verus! {

// Events are the engine's non-authoritative side channel: one is produced
// per successful operation, and observers must verify the persisted record
// rather than trust an event alone. The operations return them; emission to
// the outside world is the environment's business.

/// A contract record and its empty escrow pool were created.
#[derive(Clone, Copy, Debug, PartialEq, Eq, Structural)]
pub struct ContractInitialized {
    pub contract: ContractId,
    pub underlying_id: u8,
    pub strike: i64,
    pub expiry_ts: i64,
    pub notional: u64,
}

/// One side deposited collateral (side 0 is party A, side 1 is party B).
#[derive(Clone, Copy, Debug, PartialEq, Eq, Structural)]
pub struct ContractFunded {
    pub contract: ContractId,
    pub side: u8,
    pub amount: u64,
}

/// Both sides are funded; the contract is live.
#[derive(Clone, Copy, Debug, PartialEq, Eq, Structural)]
pub struct ContractLive {
    pub contract: ContractId,
}

/// The contract settled against a validated price.
#[derive(Clone, Copy, Debug, PartialEq, Eq, Structural)]
pub struct ContractSettled {
    pub contract: ContractId,
    pub price: i64,
    pub confidence: u64,
    pub timestamp: i64,
    pub long_payout: u64,
    pub short_payout: u64,
}

/// The contract was cancelled after the funding deadline and the escrow
/// balance refunded to the funded side.
#[derive(Clone, Copy, Debug, PartialEq, Eq, Structural)]
pub struct ContractCancelled {
    pub contract: ContractId,
    pub refunded_amount: u64,
}

} // verus!
