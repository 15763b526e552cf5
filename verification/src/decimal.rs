//! Prices read as `rust_decimal` decimals, and how two of them compare.
//!
//! A decimal is a mantissa `m` and a scale `e`: its value is `m / 10^e`.
use vstd::prelude::*;

verus! {

/// Every mantissa of a `rust_decimal::Decimal` is below this in magnitude:
/// it is held in 96 bits.
pub const MANTISSA_BOUND: i128 = 79_228_162_514_264_337_593_543_950_336;

/// Ten to the power `n`.
pub open spec fn pow10(n: nat) -> int
    decreases n,
{
    if n == 0 { 1 } else { 10 * pow10((n - 1) as nat) }
}

/// What reading `s` as a `rust_decimal::Decimal` gives: its mantissa, its
/// scale and the text it prints as, or nothing when `s` does not read.
pub uninterp spec fn decimal_reading(s: Seq<char>) -> Option<(i128, u32, Seq<char>)>;

/// Reads `s` with `str::parse::<rust_decimal::Decimal>` (its `FromStr`), and
/// hands back the decimal as plain values: `Decimal::mantissa`,
/// `Decimal::scale` and its `Display` text. The reading is named
/// `decimal_reading`; the source keeps the mantissa in three 32-bit words,
/// so it is below 2^96 in magnitude.
#[verifier::external_body]
pub(crate) fn read_decimal(s: &str) -> (r: Option<(i128, u32, String)>)
    ensures
        match r {
            Some((m, e, t)) => decimal_reading(s@) == Some((m, e, t@)) && -MANTISSA_BOUND < m < MANTISSA_BOUND,
            None => decimal_reading(s@) is None,
        },
{
    match s.parse::<rust_decimal::Decimal>() {
        Ok(d) => Some((d.mantissa(), d.scale(), d.to_string())),
        Err(_) => None,
    }
}

/// Whether the decimal `a` is above the decimal `b` in value (mantissa and
/// scale first in each): `a.0 / 10^a.1 > b.0 / 10^b.1`.
pub open spec fn decimal_above(a: (i128, u32), b: (i128, u32)) -> bool {
    a.0 * pow10(b.1 as nat) > b.0 * pow10(a.1 as nat)
}

/// Powers of ten add their exponents.
proof fn lemma_pow10_add(a: nat, b: nat)
    ensures
        pow10(a + b) == pow10(a) * pow10(b),
    decreases a,
{
    if a > 0 {
        lemma_pow10_add((a - 1) as nat, b);
        assert(pow10(a + b) == 10 * pow10((a - 1 + b) as nat));
        assert(10 * (pow10((a - 1) as nat) * pow10(b)) == (10 * pow10((a - 1) as nat)) * pow10(b)) by (nonlinear_arith);
    }
}

/// Powers of ten are at least one.
proof fn lemma_pow10_positive(n: nat)
    ensures
        pow10(n) >= 1,
    decreases n,
{
    if n > 0 {
        lemma_pow10_positive((n - 1) as nat);
    }
}

/// Whether `x * 10^d > y`, for mantissas below the bound. `x` is scaled up a
/// digit at a time; once it reaches the bound it is past `y` already, and
/// further digits keep it on the same side.
fn scaled_above(x: i128, d: u32, y: i128) -> (r: bool)
    requires
        -MANTISSA_BOUND < x < MANTISSA_BOUND,
        -MANTISSA_BOUND < y < MANTISSA_BOUND,
    ensures
        r == (x * pow10(d as nat) > y),
{
    let mut v: i128 = x;
    let mut i: u32 = 0;
    while i < d && -MANTISSA_BOUND < v && v < MANTISSA_BOUND
        invariant
            i <= d,
            v * pow10((d - i) as nat) == x * pow10(d as nat),
            -10 * MANTISSA_BOUND < v < 10 * MANTISSA_BOUND,
        decreases d - i,
    {
        let ghost p = pow10((d - i - 1) as nat);
        assert(pow10((d - i) as nat) == 10 * p);
        assert((v * 10) * p == v * (10 * p)) by (nonlinear_arith);
        v = v * 10;
        i = i + 1;
    }
    proof {
        let p = pow10((d - i) as nat);
        lemma_pow10_positive((d - i) as nat);
        if i < d {
            if v > 0 {
                assert(v * p >= v) by (nonlinear_arith)
                    requires v > 0, p >= 1;
            } else {
                assert(v * p <= v) by (nonlinear_arith)
                    requires v < 0, p >= 1;
            }
        } else {
            assert(p == 1);
        }
    }
    v > y
}

/// Compares two decimals by value, as `decimal_above` says.
pub fn is_above(a: (i128, u32), b: (i128, u32)) -> (r: bool)
    requires
        -MANTISSA_BOUND < a.0 < MANTISSA_BOUND,
        -MANTISSA_BOUND < b.0 < MANTISSA_BOUND,
    ensures
        r == decimal_above(a, b),
{
    let (am, ae) = a;
    let (bm, be) = b;
    if ae <= be {
        let d = be - ae;
        let r = scaled_above(am, d, bm);
        proof {
            lemma_pow10_add(ae as nat, d as nat);
            lemma_pow10_positive(ae as nat);
            let pa = pow10(ae as nat);
            let pd = pow10(d as nat);
            assert(pow10(be as nat) == pa * pd);
            assert((am * (pa * pd) > bm * pa) == (am * pd > bm)) by (nonlinear_arith)
                requires pa >= 1;
        }
        r
    } else {
        let d = ae - be;
        let r = scaled_above(-bm, d, -am);
        proof {
            lemma_pow10_add(be as nat, d as nat);
            lemma_pow10_positive(be as nat);
            let pb = pow10(be as nat);
            let pd = pow10(d as nat);
            assert(pow10(ae as nat) == pb * pd);
            assert((am * pb > bm * (pb * pd)) == ((-bm) * pd > -am)) by (nonlinear_arith)
                requires pb >= 1;
        }
        r
    }
}

} // verus!
