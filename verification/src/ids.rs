use vstd::prelude::*;

verus! {

/// Identity of an externally owned account (a party, a token account, an
/// oracle feed, a currency mint): an opaque fixed-size key supplied by the
/// environment. The engine never inspects it, only routes value to it.
pub type AccountId = u64;

/// Identity of a contract record. It is derived purely from the parameters
/// that individuate the contract, so any external auditor can re-derive it
/// from public data.
#[derive(Clone, Copy, Debug, PartialEq, Eq, Structural)]
pub struct ContractId {
    pub underlying_id: u8,
    pub strike: i64,
    pub expiry_ts: i64,
}

/// Identity of the escrow pool of one contract, derived purely from the
/// contract's identity: one pool per contract, for the contract's lifetime.
#[derive(Clone, Copy, Debug, PartialEq, Eq, Structural)]
pub struct EscrowId {
    pub contract: ContractId,
}

/// Derive the identity of the contract record for a strike/underlying/expiry
/// triple. The derivation is a pure, injective function of its inputs.
pub fn derive_contract_id(underlying_id: u8, strike: i64, expiry_ts: i64) -> (r: ContractId)
    ensures
        r == (ContractId { underlying_id, strike, expiry_ts }),
{
    ContractId { underlying_id, strike, expiry_ts }
}

/// Derive the identity of a contract's escrow pool from the contract's
/// identity. Pure, so the same contract always maps to the same pool.
pub fn derive_escrow_id(contract: ContractId) -> (r: EscrowId)
    ensures
        r == (EscrowId { contract }),
{
    EscrowId { contract }
}

} // verus!
