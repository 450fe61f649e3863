use vstd::prelude::*;

verus! {

/// Basis points in a whole.
pub const BPS_WHOLE: u32 = 10000;

/// The platform's cut of an escrow at a fee in basis points, rounded down.
pub open spec fn fee_of(escrow: int, fee_bps: int) -> int {
    escrow * fee_bps / 10000
}

/// The employer's share of an escrow at a percentage, rounded down.
pub open spec fn employer_share_of(escrow: int, employer_pct: int) -> int {
    escrow * employer_pct / 100
}

proof fn lemma_scaled_split(e: int, f: int, d: int)
    requires
        0 <= e,
        0 <= f <= d,
        0 < d,
    ensures
        (e / d) * f + (e % d) * f / d == e * f / d,
        0 <= (e % d) * f / d <= e % d,
        (e / d) * f <= e / d * d,
        e / d * d + e % d == e,
        0 <= e % d < d,
{
    vstd::arithmetic::div_mod::lemma_fundamental_div_mod(e, d);
    vstd::arithmetic::div_mod::lemma_mod_bound(e, d);
    let q = e / d;
    let r = e % d;
    assert(q * d == d * q) by (nonlinear_arith);
    assert(e * f == (q * f) * d + r * f) by (nonlinear_arith)
        requires
            e == d * q + r,
    ;
    vstd::arithmetic::div_mod::lemma_hoist_over_denominator(r * f, q * f, d as nat);
    assert(0 <= r * f <= r * d) by (nonlinear_arith)
        requires
            0 <= r,
            0 <= f <= d,
    ;
    vstd::arithmetic::div_mod::lemma_div_is_ordered(r * f, r * d, d);
    vstd::arithmetic::div_mod::lemma_div_pos_is_pos(r * f, d);
    assert(r * d / d == r) by {
        vstd::arithmetic::div_mod::lemma_div_by_multiple(r, d);
    }
    assert(0 <= q * f <= q * d) by (nonlinear_arith)
        requires
            0 <= q,
            0 <= f <= d,
    ;
}

/// Splits `escrow` as `d` parts: `f` of them, rounded down, and the rest.
/// Computed without forming `escrow * f`, which may not fit.
fn split_scaled(escrow: i128, f: i128, d: i128) -> (r: (i128, i128))
    requires
        0 <= escrow,
        0 <= f <= d,
        0 < d <= 10000,
    ensures
        r.0 == (escrow as int) * (f as int) / (d as int),
        r.1 == escrow - r.0,
        0 <= r.0 <= escrow,
{
    proof {
        lemma_scaled_split(escrow as int, f as int, d as int);
    }
    let e = escrow as u128;
    let q = e / (d as u128);
    let rem = e % (d as u128);
    assert(0 <= rem * f <= 100000000) by (nonlinear_arith)
        requires
            0 <= rem < d,
            0 <= f <= d,
            d <= 10000,
    ;
    assert((rem * f) / (d as int) <= rem);
    let low = rem * (f as u128) / (d as u128);
    let part = (q * (f as u128) + low) as i128;
    (part, escrow - part)
}

proof fn lemma_large_fee_exceeds(e: int, f: int)
    requires
        e >= 10000,
        f > 10000,
    ensures
        e * f / 10000 > e,
{
    assert(e * f >= 10000 * (e + 1)) by (nonlinear_arith)
        requires
            e >= 10000,
            f >= 10001,
    ;
    vstd::arithmetic::div_mod::lemma_div_is_ordered(10000 * (e + 1), e * f, 10000);
    vstd::arithmetic::div_mod::lemma_div_by_multiple(e + 1, 10000);
    assert(10000 * (e + 1) == (e + 1) * 10000) by (nonlinear_arith);
}

/// The platform fee and the freelancer's payment for an escrow at `fee_bps`,
/// or `None` where the fee exceeds the escrow, so that the payment would be
/// negative (only a fee above the whole can do that).
pub fn platform_cut(escrow: i128, fee_bps: u32) -> (r: Option<(i128, i128)>)
    requires
        0 <= escrow,
    ensures
        r.is_some() <==> fee_of(escrow as int, fee_bps as int) <= escrow,
        r matches Some(p) ==> {
            &&& p.0 == fee_of(escrow as int, fee_bps as int)
            &&& p.1 == escrow - p.0
            &&& 0 <= p.0
        },
{
    if fee_bps <= BPS_WHOLE {
        return Some(split_scaled(escrow, fee_bps as i128, BPS_WHOLE as i128));
    }
    if escrow >= 10000 {
        proof {
            lemma_large_fee_exceeds(escrow as int, fee_bps as int);
        }
        return None;
    }
    // Here the escrow is below the whole, so the product fits.
    let e = escrow as u128;
    assert(0 <= e * fee_bps <= 10000 * 0xffff_ffff) by (nonlinear_arith)
        requires
            0 <= e < 10000,
            0 <= fee_bps <= 0xffff_ffff,
    ;
    let fee = e * (fee_bps as u128) / (BPS_WHOLE as u128);
    if fee > e {
        None
    } else {
        let fee = fee as i128;
        Some((fee, escrow - fee))
    }
}

/// The employer's refund and the freelancer's payment when a dispute over
/// `escrow` is settled with `employer_pct` percent to the employer.
pub fn dispute_split(escrow: i128, employer_pct: u32) -> (r: (i128, i128))
    requires
        0 <= escrow,
        employer_pct <= 100,
    ensures
        r.0 == employer_share_of(escrow as int, employer_pct as int),
        r.1 == escrow - r.0,
        0 <= r.0 <= escrow,
{
    split_scaled(escrow, employer_pct as i128, 100)
}

} // verus!
