use vstd::prelude::*;

verus! {

// ---------------------------------------------------------------------------
// Payoff calculation: a pure function of strike, notional, and a validated
// price. The winning side's entitlement is floor(|price - strike| * notional
// / |strike|); an overflow in the multiply falls back to a zero entitlement
// rather than an error, a documented (and deliberately preserved)
// permissiveness of the engine. Capping to the escrow balance is the state
// machine's concern, not this module's.
// ---------------------------------------------------------------------------

/// Absolute value.
pub open spec fn iabs(x: int) -> int {
    if x >= 0 {
        x
    } else {
        -x
    }
}

/// The winner's entitlement for a price-strike gap of magnitude `delta_mag`:
/// floor(delta_mag * notional / strike_mag). A product outside the unsigned
/// 64-bit range, or a zero divisor, falls back to a zero entitlement.
pub open spec fn payoff_magnitude(delta_mag: int, notional: int, strike_mag: int) -> int {
    if strike_mag == 0 || delta_mag * notional > u64::MAX {
        0
    } else {
        (delta_mag * notional) / strike_mag
    }
}

/// The long side's entitlement: non-zero only when the price finished above
/// the strike.
pub open spec fn spec_long_payoff(strike: int, notional: int, price: int) -> int {
    if price - strike > 0 {
        payoff_magnitude(price - strike, notional, iabs(strike))
    } else {
        0
    }
}

/// The short side's entitlement: non-zero only when the price finished below
/// the strike.
pub open spec fn spec_short_payoff(strike: int, notional: int, price: int) -> int {
    if price - strike < 0 {
        payoff_magnitude(strike - price, notional, iabs(strike))
    } else {
        0
    }
}

/// Compute `(long_payoff, short_payoff)` for a settlement price. At most one
/// of the two is non-zero; both are zero when the price equals the strike or
/// when the winning entitlement overflows. A zero strike never occurs in a
/// well-formed contract, but this calculator is total and mirrors the
/// zero-divisor fallback all the same.
pub fn compute_payoff(strike: i64, notional: u64, price: i64) -> (r: (u64, u64))
    ensures
        r.0 == spec_long_payoff(strike as int, notional as int, price as int),
        r.1 == spec_short_payoff(strike as int, notional as int, price as int),
        r.0 == 0 || r.1 == 0,
{
    let strike_mag: u64 = if strike >= 0 {
        strike as u64
    } else if strike == i64::MIN {
        9223372036854775808u64
    } else {
        (-strike) as u64
    };
    let delta: i128 = (price as i128) - (strike as i128);
    if delta > 0 {
        let d: u64 = delta as u64;
        proof {
            assert((d as int) * (notional as int) <= 0xffffffffffffffff * 0xffffffffffffffff)
                by (nonlinear_arith)
                requires
                    d <= 0xffffffffffffffff,
                    notional <= 0xffffffffffffffff,
            ;
        }
        let prod: u128 = (d as u128) * (notional as u128);
        if strike_mag == 0 || prod > 0xffffffffffffffffu128 {
            (0, 0)
        } else {
            ((prod as u64) / strike_mag, 0)
        }
    } else if delta < 0 {
        let d: u64 = (-delta) as u64;
        proof {
            assert((d as int) * (notional as int) <= 0xffffffffffffffff * 0xffffffffffffffff)
                by (nonlinear_arith)
                requires
                    d <= 0xffffffffffffffff,
                    notional <= 0xffffffffffffffff,
            ;
        }
        let prod: u128 = (d as u128) * (notional as u128);
        if strike_mag == 0 || prod > 0xffffffffffffffffu128 {
            (0, 0)
        } else {
            (0, (prod as u64) / strike_mag)
        }
    } else {
        (0, 0)
    }
}

} // verus!
