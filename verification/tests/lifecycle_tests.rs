use risk_exchange::errors::ErrorCode;
use risk_exchange::escrow::Escrow;
use risk_exchange::machine::cancel_unfunded;
use risk_exchange::machine::fund_contract;
use risk_exchange::machine::initialize_contract;
use risk_exchange::machine::settle_contract;
use risk_exchange::machine::CancelUnfunded;
use risk_exchange::machine::Contract;
use risk_exchange::machine::ContractState;
use risk_exchange::machine::FundContract;
use risk_exchange::machine::FundingSide;
use risk_exchange::machine::InitializeContract;
use risk_exchange::machine::SettleContract;

const STRIKE: i64 = 10_000_000_000;
const EXPIRY: i64 = 2_000_000_000;
const NOTIONAL: u64 = 1000;

fn parties() -> InitializeContract {
    InitializeContract { party_a: 11, party_b: 22, oracle: 33, usdc_mint: 44 }
}

fn new_contract() -> (Contract, Escrow) {
    let (contract, escrow, event) =
        initialize_contract(&parties(), 1, STRIKE, EXPIRY, NOTIONAL, 7).unwrap();
    assert!(matches!(contract.state, ContractState::Init));
    assert!(!contract.funded_a && !contract.funded_b);
    assert_eq!(escrow.balance, 0);
    assert!(escrow.is_open);
    assert_eq!(event.strike, STRIKE);
    assert_eq!(event.notional, NOTIONAL);
    (contract, escrow)
}

fn fund_accounts() -> FundContract {
    FundContract { payer: 11, payer_token_account: 55 }
}

fn settle_accounts(oracle_data: Vec<u8>) -> SettleContract {
    SettleContract { oracle_data, long_token_account: 66, short_token_account: 77, payer: 88 }
}

fn cancel_accounts() -> CancelUnfunded {
    CancelUnfunded { party_a_token_account: 66, party_b_token_account: 77, payer: 88 }
}

/// A valid trading feed at exponent -8 with the given price, published at
/// the expiry instant.
fn feed_at(price: i64) -> Vec<u8> {
    let mut data = vec![0u8; 200];
    data[9..13].copy_from_slice(&(-8i32).to_le_bytes());
    data[13..21].copy_from_slice(&price.to_le_bytes());
    data[21..29].copy_from_slice(&500u64.to_le_bytes());
    data[29] = 1;
    data[63..71].copy_from_slice(&EXPIRY.to_le_bytes());
    data
}

#[test]
fn initialize_rejects_bad_parameters() {
    assert_eq!(
        initialize_contract(&parties(), 1, 0, EXPIRY, NOTIONAL, 7).unwrap_err(),
        ErrorCode::InvalidParameters
    );
    assert_eq!(
        initialize_contract(&parties(), 1, STRIKE, EXPIRY, 0, 7).unwrap_err(),
        ErrorCode::InvalidParameters
    );
    let twins = InitializeContract { party_a: 11, party_b: 11, oracle: 33, usdc_mint: 44 };
    assert_eq!(
        initialize_contract(&twins, 1, STRIKE, EXPIRY, NOTIONAL, 7).unwrap_err(),
        ErrorCode::InvalidParameters
    );
    assert_eq!(
        initialize_contract(&parties(), 1, STRIKE, i64::MIN, NOTIONAL, 7).unwrap_err(),
        ErrorCode::InvalidParameters
    );
}

#[test]
fn funding_walks_init_partial_live() {
    let (mut contract, mut escrow) = new_contract();
    let out = fund_contract(&mut contract, &mut escrow, &fund_accounts(), FundingSide::A, 400)
        .unwrap();
    assert!(matches!(contract.state, ContractState::PartiallyFunded));
    assert!(contract.funded_a && !contract.funded_b);
    assert_eq!(escrow.balance, 400);
    assert_eq!(out.funded_event.side, 0);
    assert_eq!(out.funded_event.amount, 400);
    assert!(out.live_event.is_none());

    let out = fund_contract(&mut contract, &mut escrow, &fund_accounts(), FundingSide::B, 600)
        .unwrap();
    assert!(matches!(contract.state, ContractState::Live));
    assert!(contract.funded_a && contract.funded_b);
    assert_eq!(escrow.balance, 1000);
    assert_eq!(out.funded_event.side, 1);
    assert!(out.live_event.is_some());
}

#[test]
fn funding_twice_on_one_side_fails_once_only() {
    let (mut contract, mut escrow) = new_contract();
    fund_contract(&mut contract, &mut escrow, &fund_accounts(), FundingSide::A, 400).unwrap();
    let second =
        fund_contract(&mut contract, &mut escrow, &fund_accounts(), FundingSide::A, 400);
    assert_eq!(second.unwrap_err(), ErrorCode::AlreadyFunded);
    // The balance reflects only the first transfer.
    assert_eq!(escrow.balance, 400);
    assert!(matches!(contract.state, ContractState::PartiallyFunded));
}

#[test]
fn funding_after_live_is_rejected() {
    let (mut contract, mut escrow) = new_contract();
    fund_contract(&mut contract, &mut escrow, &fund_accounts(), FundingSide::A, 1).unwrap();
    fund_contract(&mut contract, &mut escrow, &fund_accounts(), FundingSide::B, 1).unwrap();
    let r = fund_contract(&mut contract, &mut escrow, &fund_accounts(), FundingSide::A, 1);
    assert_eq!(r.unwrap_err(), ErrorCode::InvalidContractStatus);
    assert_eq!(escrow.balance, 2);
}

#[test]
fn settlement_pays_the_long_side_and_conserves_value() {
    let (mut contract, mut escrow) = new_contract();
    fund_contract(&mut contract, &mut escrow, &fund_accounts(), FundingSide::A, 400).unwrap();
    fund_contract(&mut contract, &mut escrow, &fund_accounts(), FundingSide::B, 600).unwrap();
    let balance_at_start = escrow.balance;

    // Price 110.00000000: the long entitlement is 100; residual 900 splits
    // 450/450.
    let accounts = settle_accounts(feed_at(11_000_000_000));
    let out = settle_contract(&mut contract, &mut escrow, &accounts, EXPIRY + 10).unwrap();
    assert_eq!(out.long_payout, 100);
    assert_eq!(out.short_payout, 0);
    assert_eq!(out.refund_long, 450);
    assert_eq!(out.refund_short, 450);
    assert_eq!(
        out.long_payout + out.short_payout + out.refund_long + out.refund_short,
        balance_at_start
    );
    assert!(matches!(contract.state, ContractState::Settled));
    assert_eq!(contract.settlement_price, Some(11_000_000_000));
    assert_eq!(contract.settlement_confidence, Some(500));
    assert_eq!(escrow.balance, 0);
    assert!(!escrow.is_open);
    assert_eq!(out.event.price, 11_000_000_000);
    assert_eq!(out.event.long_payout, 100);
    assert_eq!(out.event.timestamp, EXPIRY + 10);
}

#[test]
fn settlement_caps_payout_to_the_balance() {
    let (mut contract, mut escrow) = new_contract();
    fund_contract(&mut contract, &mut escrow, &fund_accounts(), FundingSide::A, 30).unwrap();
    fund_contract(&mut contract, &mut escrow, &fund_accounts(), FundingSide::B, 30).unwrap();

    // Entitlement 100 exceeds the 60 in escrow: the payout is capped and
    // nothing is left to split.
    let accounts = settle_accounts(feed_at(11_000_000_000));
    let out = settle_contract(&mut contract, &mut escrow, &accounts, EXPIRY).unwrap();
    assert_eq!(out.long_payout, 60);
    assert_eq!(out.short_payout, 0);
    assert_eq!(out.refund_long, 0);
    assert_eq!(out.refund_short, 0);
}

#[test]
fn odd_residual_unit_goes_to_the_short_destination() {
    let (mut contract, mut escrow) = new_contract();
    fund_contract(&mut contract, &mut escrow, &fund_accounts(), FundingSide::A, 101).unwrap();
    fund_contract(&mut contract, &mut escrow, &fund_accounts(), FundingSide::B, 0).unwrap();

    // Price at strike: nobody wins, the 101 residual splits 50/51.
    let accounts = settle_accounts(feed_at(STRIKE));
    let out = settle_contract(&mut contract, &mut escrow, &accounts, EXPIRY).unwrap();
    assert_eq!(out.long_payout, 0);
    assert_eq!(out.short_payout, 0);
    assert_eq!(out.refund_long, 50);
    assert_eq!(out.refund_short, 51);
}

#[test]
fn settlement_before_expiry_is_rejected() {
    let (mut contract, mut escrow) = new_contract();
    fund_contract(&mut contract, &mut escrow, &fund_accounts(), FundingSide::A, 10).unwrap();
    fund_contract(&mut contract, &mut escrow, &fund_accounts(), FundingSide::B, 10).unwrap();
    let accounts = settle_accounts(feed_at(STRIKE));
    let r = settle_contract(&mut contract, &mut escrow, &accounts, EXPIRY - 1);
    assert_eq!(r.unwrap_err(), ErrorCode::ContractNotExpired);
    assert!(matches!(contract.state, ContractState::Live));
    assert_eq!(escrow.balance, 20);
}

#[test]
fn settlement_with_a_bad_feed_changes_nothing() {
    let (mut contract, mut escrow) = new_contract();
    fund_contract(&mut contract, &mut escrow, &fund_accounts(), FundingSide::A, 10).unwrap();
    fund_contract(&mut contract, &mut escrow, &fund_accounts(), FundingSide::B, 10).unwrap();
    // Published 61 seconds before the settlement instant: stale.
    let accounts = settle_accounts(feed_at(STRIKE));
    let r = settle_contract(&mut contract, &mut escrow, &accounts, EXPIRY + 61);
    assert_eq!(r.unwrap_err(), ErrorCode::OracleFeedError);
    assert!(matches!(contract.state, ContractState::Live));
    assert_eq!(contract.settlement_price, None);
    assert_eq!(escrow.balance, 20);
    assert!(escrow.is_open);
}

#[test]
fn settling_twice_fails_without_moving_funds() {
    let (mut contract, mut escrow) = new_contract();
    fund_contract(&mut contract, &mut escrow, &fund_accounts(), FundingSide::A, 10).unwrap();
    fund_contract(&mut contract, &mut escrow, &fund_accounts(), FundingSide::B, 10).unwrap();
    let accounts = settle_accounts(feed_at(STRIKE));
    settle_contract(&mut contract, &mut escrow, &accounts, EXPIRY).unwrap();
    let price_first = contract.settlement_price;
    let second = settle_contract(&mut contract, &mut escrow, &accounts, EXPIRY);
    assert_eq!(second.unwrap_err(), ErrorCode::InvalidContractStatus);
    assert!(matches!(contract.state, ContractState::Settled));
    assert_eq!(contract.settlement_price, price_first);
    assert_eq!(escrow.balance, 0);
}

#[test]
fn settling_an_unfunded_contract_is_rejected() {
    let (mut contract, mut escrow) = new_contract();
    let accounts = settle_accounts(feed_at(STRIKE));
    let r = settle_contract(&mut contract, &mut escrow, &accounts, EXPIRY);
    assert_eq!(r.unwrap_err(), ErrorCode::InvalidContractStatus);
}

#[test]
fn cancellation_refunds_the_funded_side() {
    let (mut contract, mut escrow) = new_contract();
    fund_contract(&mut contract, &mut escrow, &fund_accounts(), FundingSide::A, 500).unwrap();
    let out = cancel_unfunded(&mut contract, &mut escrow, &cancel_accounts(), EXPIRY).unwrap();
    assert_eq!(out.refunded_amount, 500);
    assert_eq!(out.refund_destination, Some(66));
    assert!(matches!(contract.state, ContractState::Cancelled));
    assert_eq!(escrow.balance, 0);
    assert!(!escrow.is_open);
    assert_eq!(out.event.refunded_amount, 500);
}

#[test]
fn cancellation_refunds_side_b_when_only_b_funded() {
    let (mut contract, mut escrow) = new_contract();
    fund_contract(&mut contract, &mut escrow, &fund_accounts(), FundingSide::B, 123).unwrap();
    let out = cancel_unfunded(&mut contract, &mut escrow, &cancel_accounts(), EXPIRY).unwrap();
    assert_eq!(out.refunded_amount, 123);
    assert_eq!(out.refund_destination, Some(77));
}

#[test]
fn cancelling_a_never_funded_contract_moves_nothing() {
    let (mut contract, mut escrow) = new_contract();
    let out = cancel_unfunded(&mut contract, &mut escrow, &cancel_accounts(), EXPIRY).unwrap();
    assert_eq!(out.refunded_amount, 0);
    assert_eq!(out.refund_destination, None);
    assert!(matches!(contract.state, ContractState::Cancelled));
}

#[test]
fn a_zero_amount_deposit_still_sets_the_flag() {
    // Funding amounts are not validated: the engine accumulates whatever is
    // transferred in, including nothing.
    let (mut contract, mut escrow) = new_contract();
    fund_contract(&mut contract, &mut escrow, &fund_accounts(), FundingSide::A, 0).unwrap();
    assert!(contract.funded_a);
    assert!(matches!(contract.state, ContractState::PartiallyFunded));
    assert_eq!(escrow.balance, 0);
    // Cancelling then moves nothing, even though a side is marked funded.
    let out = cancel_unfunded(&mut contract, &mut escrow, &cancel_accounts(), EXPIRY).unwrap();
    assert_eq!(out.refunded_amount, 0);
    assert_eq!(out.refund_destination, None);
}

#[test]
fn cancellation_respects_the_deadline() {
    let deadline = EXPIRY - 7 * 24 * 60 * 60;
    let (mut contract, mut escrow) = new_contract();
    let r = cancel_unfunded(&mut contract, &mut escrow, &cancel_accounts(), deadline - 1);
    assert_eq!(r.unwrap_err(), ErrorCode::FundingDeadlineNotPassed);
    assert!(matches!(contract.state, ContractState::Init));
    assert!(cancel_unfunded(&mut contract, &mut escrow, &cancel_accounts(), deadline).is_ok());
}

#[test]
fn cancelling_a_live_or_terminal_contract_is_rejected() {
    let (mut contract, mut escrow) = new_contract();
    fund_contract(&mut contract, &mut escrow, &fund_accounts(), FundingSide::A, 10).unwrap();
    fund_contract(&mut contract, &mut escrow, &fund_accounts(), FundingSide::B, 10).unwrap();
    let r = cancel_unfunded(&mut contract, &mut escrow, &cancel_accounts(), EXPIRY);
    assert_eq!(r.unwrap_err(), ErrorCode::InvalidContractStatus);

    let accounts = settle_accounts(feed_at(STRIKE));
    settle_contract(&mut contract, &mut escrow, &accounts, EXPIRY).unwrap();
    let r = cancel_unfunded(&mut contract, &mut escrow, &cancel_accounts(), EXPIRY);
    assert_eq!(r.unwrap_err(), ErrorCode::InvalidContractStatus);
}

#[test]
fn short_side_wins_when_price_finishes_below_strike() {
    let (mut contract, mut escrow) = new_contract();
    fund_contract(&mut contract, &mut escrow, &fund_accounts(), FundingSide::A, 500).unwrap();
    fund_contract(&mut contract, &mut escrow, &fund_accounts(), FundingSide::B, 500).unwrap();
    // Price 90.00000000: the short entitlement is 100.
    let accounts = settle_accounts(feed_at(9_000_000_000));
    let out = settle_contract(&mut contract, &mut escrow, &accounts, EXPIRY).unwrap();
    assert_eq!(out.long_payout, 0);
    assert_eq!(out.short_payout, 100);
    assert_eq!(out.refund_long, 450);
    assert_eq!(out.refund_short, 450);
}
