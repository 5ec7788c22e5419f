use risk_exchange::payoff::compute_payoff;

#[test]
fn long_wins_above_strike() {
    // strike 100.00000000, notional 1000, price 110.00000000:
    // delta 1_000_000_000, payoff 1_000_000_000 * 1000 / 10_000_000_000 = 100.
    let (long, short) = compute_payoff(10_000_000_000, 1000, 11_000_000_000);
    assert_eq!(long, 100);
    assert_eq!(short, 0);
}

#[test]
fn short_wins_below_strike() {
    let (long, short) = compute_payoff(10_000_000_000, 1000, 9_000_000_000);
    assert_eq!(long, 0);
    assert_eq!(short, 100);
}

#[test]
fn price_at_strike_pays_nobody() {
    let (long, short) = compute_payoff(10_000_000_000, 1000, 10_000_000_000);
    assert_eq!(long, 0);
    assert_eq!(short, 0);
}

#[test]
fn entitlement_floors() {
    // delta 999, notional 10, strike 1000: floor(9990 / 1000) = 9.
    let (long, short) = compute_payoff(1000, 10, 1999);
    assert_eq!(long, 9);
    assert_eq!(short, 0);
}

#[test]
fn overflow_in_multiply_falls_back_to_zero() {
    // delta 2 * u64::MAX overflows the multiply: the documented fallback is
    // a zero entitlement, not an error.
    let (long, short) = compute_payoff(1, u64::MAX, 3);
    assert_eq!(long, 0);
    assert_eq!(short, 0);
}

#[test]
fn zero_strike_falls_back_to_zero() {
    // A well-formed contract never has a zero strike; the calculator still
    // mirrors the divide-by-zero fallback of the entitlement formula.
    assert_eq!(compute_payoff(0, 1000, 42), (0, 0));
    assert_eq!(compute_payoff(0, 1000, -42), (0, 0));
}

#[test]
fn negative_strike_uses_its_magnitude() {
    // delta 50, |strike| 100: floor(50 * 200 / 100) = 100.
    let (long, short) = compute_payoff(-100, 200, -50);
    assert_eq!(long, 100);
    assert_eq!(short, 0);
}

#[test]
fn extreme_gap_across_the_full_range() {
    // delta spans nearly the whole signed range; the multiply with a small
    // notional overflows and falls back to zero.
    let (long, short) = compute_payoff(i64::MIN, 2, i64::MAX);
    assert_eq!(long, 0);
    assert_eq!(short, 0);
    // With notional 1 the product fits: delta / |i64::MIN|.
    let (long, short) = compute_payoff(i64::MIN, 1, i64::MAX);
    assert_eq!(long, 1);
    assert_eq!(short, 0);
}
