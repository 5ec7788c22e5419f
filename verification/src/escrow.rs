use vstd::prelude::*;
use crate::ids::EscrowId;

verus! {

/// The collateral pool of one contract. The balance is the sum of net
/// deposits minus net withdrawals issued through the owning state machine,
/// which holds the sole authority over the pool; no other path mutates it.
/// Closing the pool is only possible once it has been drained to zero.
#[derive(Debug)]
pub struct Escrow {
    /// Derived identity, a back-reference to the owning contract.
    pub id: EscrowId,
    /// Unsigned collateral balance.
    pub balance: u64,
    /// False once the pool has been closed; a closed pool is never reopened.
    pub is_open: bool,
}

impl Escrow {
    /// Create the empty, open pool for a contract.
    pub fn new(id: EscrowId) -> (r: Escrow)
        ensures
            r.id == id,
            r.balance == 0,
            r.is_open,
    {
        Escrow { id, balance: 0, is_open: true }
    }

    /// Record a deposit of collateral into the pool.
    pub fn deposit(&mut self, amount: u64)
        requires
            old(self).is_open,
            old(self).balance + amount <= u64::MAX,
        ensures
            final(self).id == old(self).id,
            final(self).is_open,
            final(self).balance == old(self).balance + amount,
    {
        self.balance = self.balance + amount;
    }

    /// Record a withdrawal from the pool, capped by the caller to the
    /// available balance: value can never be created here.
    pub fn payout(&mut self, amount: u64)
        requires
            old(self).is_open,
            amount <= old(self).balance,
        ensures
            final(self).id == old(self).id,
            final(self).is_open,
            final(self).balance == old(self).balance - amount,
    {
        self.balance = self.balance - amount;
    }

    /// Close the pool. Callers must have drained it first; any residual
    /// rent or reserve of the underlying account goes to the environment's
    /// designated destination, outside this ledger.
    pub fn close(&mut self)
        requires
            old(self).is_open,
            old(self).balance == 0,
        ensures
            final(self).id == old(self).id,
            !final(self).is_open,
            final(self).balance == 0,
    {
        self.is_open = false;
    }
}

} // verus!
