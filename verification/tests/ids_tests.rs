use risk_exchange::escrow::Escrow;
use risk_exchange::ids::derive_contract_id;
use risk_exchange::ids::derive_escrow_id;

#[test]
fn contract_identity_is_deterministic_and_injective_on_its_inputs() {
    let a = derive_contract_id(1, 10_000_000_000, 2_000_000_000);
    let b = derive_contract_id(1, 10_000_000_000, 2_000_000_000);
    assert_eq!(a, b);
    let c = derive_contract_id(2, 10_000_000_000, 2_000_000_000);
    assert_ne!(a, c);
    assert_eq!(derive_escrow_id(a), derive_escrow_id(b));
    assert_ne!(derive_escrow_id(a), derive_escrow_id(c));
}

#[test]
fn escrow_pool_tracks_deposits_and_payouts() {
    let id = derive_escrow_id(derive_contract_id(1, 5, 1_000_000));
    let mut pool = Escrow::new(id);
    assert_eq!(pool.balance, 0);
    pool.deposit(300);
    pool.deposit(200);
    assert_eq!(pool.balance, 500);
    pool.payout(450);
    assert_eq!(pool.balance, 50);
    pool.payout(50);
    pool.close();
    assert!(!pool.is_open);
    assert_eq!(pool.balance, 0);
}
