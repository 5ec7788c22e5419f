//! A bilateral derivative-settlement engine.
//!
//! Two counterparties escrow collateral against a strike price and an expiry;
//! at expiry a validated external price feed determines a proportional payoff.
//! The crate owns the contract lifecycle state machine, the escrow accounting,
//! the price-feed validation and normalization, and the payoff calculation.
//! The surrounding execution environment (value transfer, clocks, storage) is
//! expected to invoke each operation atomically and hand it plain values.

pub mod errors;
pub mod ids;
pub mod events;
pub mod escrow;
pub mod oracle;
pub mod payoff;
pub mod machine;
