use vstd::prelude::*;
use vstd::arithmetic::div_mod::lemma_basic_div;
use vstd::arithmetic::div_mod::lemma_fundamental_div_mod;
use crate::errors::ErrorCode;

verus! {

// ---------------------------------------------------------------------------
// Wire format of a raw price-feed record (little-endian fixed offsets):
//   exponent   i32 at offset  9
//   price      i64 at offset 13
//   confidence u64 at offset 21
//   status     u8  at offset 29   (1 = trading)
//   publish    i64 at offset 63
// A record shorter than 200 bytes is rejected outright. This layout is a
// bit-exact compatibility requirement with the feed producer.
// ---------------------------------------------------------------------------

/// A validated price, normalized to fixed point with exponent -8.
/// Produced fresh on every settlement attempt, never cached.
#[derive(Clone, Copy, Debug, PartialEq, Eq, Structural)]
pub struct PriceData {
    pub price: i64,
    pub conf: u64,
    pub expo: i32,
}

/// The unsigned integer denoted by the little-endian bytes `b[lo..hi]`.
pub open spec fn le_value(b: Seq<u8>, lo: int, hi: int) -> nat
    decreases hi - lo,
{
    if lo >= hi {
        0
    } else {
        (b[lo] + 256 * le_value(b, lo + 1, hi)) as nat
    }
}

/// 256^n, the number of values of an n-byte field.
pub open spec fn pow256(n: nat) -> nat
    decreases n,
{
    if n == 0 {
        1
    } else {
        256 * pow256((n - 1) as nat)
    }
}

/// 10^k, the scaling factor between two decimal fixed-point exponents.
pub open spec fn pow10(k: nat) -> int
    decreases k,
{
    if k == 0 {
        1
    } else {
        10 * pow10((k - 1) as nat)
    }
}

/// The unsigned 8-byte field at `off`.
pub open spec fn le_u64_at(d: Seq<u8>, off: int) -> nat {
    le_value(d, off, off + 8)
}

/// The two's-complement 8-byte field at `off`.
pub open spec fn le_i64_at(d: Seq<u8>, off: int) -> int {
    let u = le_value(d, off, off + 8);
    if u >= 0x8000000000000000 {
        u - 0x10000000000000000
    } else {
        u as int
    }
}

/// The two's-complement 4-byte field at `off`.
pub open spec fn le_i32_at(d: Seq<u8>, off: int) -> int {
    let u = le_value(d, off, off + 4);
    if u >= 0x80000000 {
        u - 0x100000000
    } else {
        u as int
    }
}

pub open spec fn feed_expo(d: Seq<u8>) -> int {
    le_i32_at(d, 9)
}

pub open spec fn feed_raw_price(d: Seq<u8>) -> int {
    le_i64_at(d, 13)
}

pub open spec fn feed_conf(d: Seq<u8>) -> nat {
    le_u64_at(d, 21)
}

pub open spec fn feed_status(d: Seq<u8>) -> u8 {
    d[29]
}

pub open spec fn feed_publish_time(d: Seq<u8>) -> int {
    le_i64_at(d, 63)
}

/// Division truncating toward zero, for a positive divisor.
pub open spec fn div_trunc(a: int, b: int) -> int {
    if a >= 0 {
        a / b
    } else {
        -((-a) / b)
    }
}

/// The mathematical value of `raw * 10^expo` rescaled to exponent -8:
/// multiplied when the raw exponent is finer than one decimal in 10^-8,
/// divided (truncating toward zero) when it is coarser.
pub open spec fn normalized_price(raw: int, expo: int) -> int {
    let diff = expo + 8;
    if diff == 0 {
        raw
    } else if diff > 0 {
        raw * pow10(diff as nat)
    } else {
        div_trunc(raw, pow10((-diff) as nat))
    }
}

/// Whether the rescaled price fits the fixed-point range; when it does not,
/// the feed is rejected rather than silently wrapped.
pub open spec fn normalization_fits(raw: int, expo: int) -> bool {
    i64::MIN <= normalized_price(raw, expo) <= i64::MAX
}

/// Every condition a raw record must meet before its price is trusted:
/// minimum size, trading status, freshness within 60 seconds, confidence
/// width at most 1_000_000 feed units, and an in-range normalization.
pub open spec fn feed_valid(d: Seq<u8>, now: int) -> bool {
    &&& d.len() >= 200
    &&& feed_status(d) == 1
    &&& now - feed_publish_time(d) <= 60
    &&& feed_conf(d) <= 1000000
    &&& normalization_fits(feed_raw_price(d), feed_expo(d))
}

/// The normalized price a valid record denotes.
pub open spec fn feed_price_data(d: Seq<u8>) -> PriceData {
    PriceData {
        price: normalized_price(feed_raw_price(d), feed_expo(d)) as i64,
        conf: feed_conf(d) as u64,
        expo: -8i32,
    }
}

pub proof fn lemma_pow10_pos(k: nat)
    ensures
        pow10(k) >= 1,
    decreases k,
{
    if k > 0 {
        lemma_pow10_pos((k - 1) as nat);
    }
}

pub proof fn lemma_pow10_mono(a: nat, b: nat)
    requires
        a <= b,
    ensures
        pow10(a) <= pow10(b),
    decreases b - a,
{
    if a < b {
        lemma_pow10_mono(a, (b - 1) as nat);
        lemma_pow10_pos((b - 1) as nat);
    }
}

pub proof fn lemma_pow10_adds(a: nat, b: nat)
    ensures
        pow10((a + b) as nat) == pow10(a) * pow10(b),
    decreases a,
{
    if a == 0 {
    } else {
        lemma_pow10_adds((a - 1) as nat, b);
        assert(10 * (pow10((a - 1) as nat) * pow10(b)) == (10 * pow10((a - 1) as nat)) * pow10(b))
            by (nonlinear_arith);
    }
}

proof fn lemma_pow256_mono(a: nat, b: nat)
    requires
        a <= b,
    ensures
        pow256(a) <= pow256(b),
    decreases b - a,
{
    if a < b {
        lemma_pow256_mono(a, (b - 1) as nat);
    }
}

/// Once one more factor of ten already leaves the fixed-point range, every
/// further factor only moves the product further out of range.
proof fn lemma_overflow_persists(raw: int, i: nat, diff: nat)
    requires
        i < diff,
        raw * pow10((i + 1) as nat) > i64::MAX || raw * pow10((i + 1) as nat) < i64::MIN,
    ensures
        raw * pow10(diff) > i64::MAX || raw * pow10(diff) < i64::MIN,
{
    let q = raw * pow10((i + 1) as nat);
    let rest = (diff - i - 1) as nat;
    lemma_pow10_adds((i + 1) as nat, rest);
    lemma_pow10_pos(rest);
    assert(raw * (pow10((i + 1) as nat) * pow10(rest)) == (raw * pow10((i + 1) as nat)) * pow10(
        rest,
    )) by (nonlinear_arith);
    if q > i64::MAX {
        assert(q * pow10(rest) >= q) by (nonlinear_arith)
            requires
                q > 0,
                pow10(rest) >= 1,
        ;
    } else {
        assert(q * pow10(rest) <= q) by (nonlinear_arith)
            requires
                q < 0,
                pow10(rest) >= 1,
        ;
    }
}

/// Read the unsigned little-endian value of `n <= 8` bytes at `off`.
fn read_le_bytes(data: &Vec<u8>, off: usize, n: usize) -> (r: u64)
    requires
        off + n <= data.len(),
        n <= 8,
    ensures
        r == le_value(data@, off as int, off + n),
        r < pow256(n as nat),
{
    let mut r: u64 = 0;
    let mut i: usize = n;
    while i > 0
        invariant
            i <= n,
            n <= 8,
            off + n <= data.len(),
            r == le_value(data@, off + i, off + n),
            r < pow256((n - i) as nat),
        decreases i,
    {
        i = i - 1;
        proof {
            lemma_pow256_mono((n - i - 1) as nat, 7);
            reveal_with_fuel(pow256, 9);
            assert(pow256(7) == 0x100000000000000);
        }
        r = r * 256 + (data[off + i] as u64);
    }
    r
}

/// Read the two's-complement 8-byte field at `off`.
fn read_i64_le(data: &Vec<u8>, off: usize) -> (r: i64)
    requires
        off + 8 <= data.len(),
    ensures
        r == le_i64_at(data@, off as int),
{
    let u = read_le_bytes(data, off, 8);
    if u >= 0x8000000000000000 {
        ((u - 0x8000000000000000) as i64) + i64::MIN
    } else {
        u as i64
    }
}

/// Read the two's-complement 4-byte field at `off`.
fn read_i32_le(data: &Vec<u8>, off: usize) -> (r: i32)
    requires
        off + 4 <= data.len(),
    ensures
        r == le_i32_at(data@, off as int),
{
    let u = read_le_bytes(data, off, 4);
    proof {
        reveal_with_fuel(pow256, 5);
        assert(pow256(4) == 0x100000000);
    }
    if u >= 0x80000000 {
        ((u - 0x80000000) as i32) + i32::MIN
    } else {
        u as i32
    }
}

/// Rescale a raw price quoted at `expo` to exponent -8, failing instead of
/// wrapping when the rescaled value leaves the fixed-point range.
pub fn normalize_price(raw: i64, expo: i32) -> (r: Result<i64, ErrorCode>)
    ensures
        normalization_fits(raw as int, expo as int) ==> r == Ok::<i64, ErrorCode>(
            normalized_price(raw as int, expo as int) as i64,
        ),
        !normalization_fits(raw as int, expo as int) ==> r == Err::<i64, ErrorCode>(
            ErrorCode::OracleFeedError,
        ),
{
    let diff: i64 = (expo as i64) + 8;
    if diff == 0 {
        return Ok(raw);
    }
    if raw == 0 {
        proof {
            if diff > 0 {
                assert(0 * pow10(diff as nat) == 0) by (nonlinear_arith);
            } else {
                let k = (-diff) as nat;
                lemma_pow10_pos(k);
                lemma_basic_div(0, pow10(k));
            }
        }
        return Ok(0);
    }
    if diff > 0 {
        let mut p: i64 = raw;
        let mut i: i64 = 0;
        while i < diff
            invariant
                0 <= i <= diff,
                raw != 0,
                diff == expo + 8,
                p == raw * pow10(i as nat),
            decreases diff - i,
        {
            proof {
                assert(pow10((i + 1) as nat) == 10 * pow10(i as nat));
                assert(raw * (10 * pow10(i as nat)) == (raw * pow10(i as nat)) * 10)
                    by (nonlinear_arith);
            }
            if p > 922337203685477580 || p < -922337203685477580 {
                proof {
                    lemma_overflow_persists(raw as int, i as nat, diff as nat);
                }
                return Err(ErrorCode::OracleFeedError);
            }
            p = p * 10;
            i = i + 1;
        }
        Ok(p)
    } else {
        // diff < 0: divide by 10^(-diff), truncating toward zero; the result
        // always fits, so this branch never fails.
        let neg = raw < 0;
        let mag: u64 = if raw >= 0 {
            raw as u64
        } else if raw == i64::MIN {
            9223372036854775808u64
        } else {
            (-raw) as u64
        };
        let k64: i64 = -diff;
        if k64 >= 19 {
            // The divisor exceeds any 64-bit magnitude: the quotient is zero.
            proof {
                let k = k64 as nat;
                lemma_pow10_mono(19, k);
                reveal_with_fuel(pow10, 20);
                assert(pow10(19) == 10000000000000000000);
                lemma_pow10_pos(k);
                lemma_basic_div(mag as int, pow10(k));
            }
            return Ok(0);
        }
        let mut divisor: u64 = 1;
        let mut j: i64 = 0;
        while j < k64
            invariant
                0 <= j <= k64 <= 18,
                divisor == pow10(j as nat),
            decreases k64 - j,
        {
            proof {
                lemma_pow10_mono(j as nat, 17);
                reveal_with_fuel(pow10, 19);
                assert(pow10(17) == 100000000000000000);
            }
            divisor = divisor * 10;
            j = j + 1;
        }
        proof {
            lemma_pow10_mono(1, k64 as nat);
            assert(pow10(1) == 10);
            lemma_fundamental_div_mod(mag as int, divisor as int);
            let q = mag as int / divisor as int;
            assert(10 * q <= divisor * q) by (nonlinear_arith)
                requires
                    divisor >= 10,
                    q >= 0,
            ;
        }
        let q: u64 = mag / divisor;
        if neg {
            Ok(-(q as i64))
        } else {
            Ok(q as i64)
        }
    }
}

/// Parse and validate a raw price-feed record against the current time,
/// returning the normalized price on success. Any violation of the format,
/// status, freshness, confidence, or range rules yields `OracleFeedError`
/// and no price.
pub fn read_price_feed(data: &Vec<u8>, current_timestamp: i64) -> (r: Result<PriceData, ErrorCode>)
    ensures
        feed_valid(data@, current_timestamp as int) ==> r == Ok::<PriceData, ErrorCode>(
            feed_price_data(data@),
        ),
        !feed_valid(data@, current_timestamp as int) ==> r == Err::<PriceData, ErrorCode>(
            ErrorCode::OracleFeedError,
        ),
{
    if data.len() < 200 {
        return Err(ErrorCode::OracleFeedError);
    }
    let expo = read_i32_le(data, 9);
    let raw_price = read_i64_le(data, 13);
    let conf = read_le_bytes(data, 21, 8);
    let status: u8 = data[29];
    if status != 1 {
        return Err(ErrorCode::OracleFeedError);
    }
    let publish_time = read_i64_le(data, 63);
    let age: i128 = (current_timestamp as i128) - (publish_time as i128);
    if age > 60 {
        return Err(ErrorCode::OracleFeedError);
    }
    if conf > 1000000 {
        return Err(ErrorCode::OracleFeedError);
    }
    match normalize_price(raw_price, expo) {
        Ok(p) => Ok(PriceData { price: p, conf, expo: -8 }),
        Err(e) => Err(e),
    }
}

} // verus!
