//! Exact base-10 decimal values, mirrored as a mantissa and a scale.
//!
//! A `Dec` holds what `rust_decimal::Decimal` reports of itself: a signed
//! mantissa of at most 96 bits and a scale of at most 28, standing for
//! `mantissa / 10^scale`. All arithmetic is delegated to `rust_decimal`
//! behind trusted wrappers; the wrappers' contracts name each operation's
//! result, and rounding to two fractional digits is stated exactly.

use vstd::prelude::*;

verus! {

/// An exact decimal number: `mantissa / 10^scale`.
#[derive(Clone, Copy, PartialEq, Eq, Structural, Debug)]
pub struct Dec {
    pub mantissa: i128,
    pub scale: u32,
}

impl View for Dec {
    type V = (int, int);

    open spec fn view(&self) -> (int, int) {
        (self.mantissa as int, self.scale as int)
    }
}

impl Dec {
    /// The representation that `rust_decimal::Decimal` can carry: a mantissa
    /// within 96 bits and a scale of at most 28.
    pub open spec fn wf(&self) -> bool {
        &&& -0x1_0000_0000_0000_0000_0000_0000i128 < self.mantissa
        &&& self.mantissa < 0x1_0000_0000_0000_0000_0000_0000i128
        &&& self.scale <= 28
    }

    /// The zero value, as `rust_decimal::Decimal::default` reports it.
    pub fn zero() -> (r: Dec)
        ensures
            r@ == (0int, 0int),
            r.wf(),
    {
        Dec { mantissa: 0, scale: 0 }
    }

    /// Whether the two values denote the same number, regardless of how many
    /// trailing fractional zeros each representation carries.
    pub fn same_value(&self, other: &Dec) -> (r: bool)
        requires
            self.wf(),
            other.wf(),
        ensures
            r == (dec_val(self@) == dec_val(other@)),
    {
        let (lo, hi) = if self.scale <= other.scale {
            (self, other)
        } else {
            (other, self)
        };
        let diff = hi.scale - lo.scale;
        let factor = pow10_i128(diff);
        proof {
            lemma_aligned_value_eq(lo@, hi@);
        }
        match lo.mantissa.checked_mul(factor) {
            Some(m) => m == hi.mantissa,
            None => {
                proof {
                    lemma_pow10_pos((28 - hi.scale) as nat);
                }
                false
            },
        }
    }
}

/// `10^n`.
pub open spec fn pow10(n: nat) -> int
    decreases n,
{
    if n == 0 {
        1
    } else {
        10 * pow10((n - 1) as nat)
    }
}

/// The absolute value of an integer.
pub open spec fn iabs(m: int) -> int {
    if m < 0 {
        -m
    } else {
        m
    }
}

/// The number a mantissa/scale pair denotes, in units of `10^-28`
/// (exact for every well-formed `Dec`, whose scale is at most 28).
pub open spec fn dec_val(v: (int, int)) -> int {
    v.0 * pow10(if v.1 <= 28 {
        (28 - v.1) as nat
    } else {
        0nat
    })
}

/// Rounding half away from zero to two fractional digits: nothing when
/// at most two fractional digits are stored; otherwise the magnitude is
/// cut to two fractional digits, raised by one when the cut part is at
/// least half, and the sign is re-applied.
pub open spec fn round2_spec(m: int, s: int) -> (int, int) {
    if s <= 2 {
        (m, s)
    } else if m == 0 {
        (0, 2)
    } else {
        let p = pow10((s - 2) as nat);
        let q = iabs(m) / p;
        let rem = iabs(m) % p;
        let mag = if rem >= p / 2 {
            q + 1
        } else {
            q
        };
        ((if m < 0 {
            -mag
        } else {
            mag
        }), 2)
    }
}

/// The mantissa/scale pair inside an optional `Dec`.
pub open spec fn dec_opt(r: Option<Dec>) -> Option<(int, int)> {
    match r {
        Some(d) => Some(d@),
        None => None,
    }
}

/// What `rust_decimal`'s decimal parser accepts and returns for a string.
pub uninterp spec fn dec_parse_of(s: Seq<char>) -> Option<(int, int)>;

/// What `rust_decimal`'s checked addition returns for two values.
pub uninterp spec fn dec_add_of(a: (int, int), b: (int, int)) -> Option<(int, int)>;

/// What `rust_decimal`'s checked subtraction returns for two values.
pub uninterp spec fn dec_sub_of(a: (int, int), b: (int, int)) -> Option<(int, int)>;

/// What `rust_decimal`'s checked multiplication returns for two values.
pub uninterp spec fn dec_mul_of(a: (int, int), b: (int, int)) -> Option<(int, int)>;

/// What `rust_decimal`'s checked division returns for two values.
pub uninterp spec fn dec_div_of(a: (int, int), b: (int, int)) -> Option<(int, int)>;

/// Relies on `rust_decimal::Decimal`'s `FromStr`: parses a decimal string,
/// or fails; the outcome depends on the characters alone.
#[verifier::external_body]
pub(crate) fn dec_parse(s: &str) -> (r: Option<Dec>)
    ensures
        dec_opt(r) == dec_parse_of(s@),
        r matches Some(c) ==> c.wf(),
{
    match s.parse::<rust_decimal::Decimal>() {
        Ok(d) => Some(Dec { mantissa: d.mantissa(), scale: d.scale() }),
        Err(_) => None,
    }
}

/// Relies on `rust_decimal::Decimal::checked_add`: the checked sum of the
/// two values, `None` on overflow.
#[verifier::external_body]
pub(crate) fn dec_add(a: &Dec, b: &Dec) -> (r: Option<Dec>)
    requires
        a.wf(),
        b.wf(),
    ensures
        dec_opt(r) == dec_add_of(a@, b@),
        r matches Some(c) ==> c.wf(),
{
    let x = rust_decimal::Decimal::from_i128_with_scale(a.mantissa, a.scale);
    let y = rust_decimal::Decimal::from_i128_with_scale(b.mantissa, b.scale);
    x.checked_add(y).map(|d| Dec { mantissa: d.mantissa(), scale: d.scale() })
}

/// Relies on `rust_decimal::Decimal::checked_sub`: the checked difference
/// of the two values, `None` on overflow.
#[verifier::external_body]
pub(crate) fn dec_sub(a: &Dec, b: &Dec) -> (r: Option<Dec>)
    requires
        a.wf(),
        b.wf(),
    ensures
        dec_opt(r) == dec_sub_of(a@, b@),
        r matches Some(c) ==> c.wf(),
{
    let x = rust_decimal::Decimal::from_i128_with_scale(a.mantissa, a.scale);
    let y = rust_decimal::Decimal::from_i128_with_scale(b.mantissa, b.scale);
    x.checked_sub(y).map(|d| Dec { mantissa: d.mantissa(), scale: d.scale() })
}

/// Relies on `rust_decimal::Decimal::checked_mul`: the checked product of
/// the two values, `None` on overflow.
#[verifier::external_body]
pub(crate) fn dec_mul(a: &Dec, b: &Dec) -> (r: Option<Dec>)
    requires
        a.wf(),
        b.wf(),
    ensures
        dec_opt(r) == dec_mul_of(a@, b@),
        r matches Some(c) ==> c.wf(),
{
    let x = rust_decimal::Decimal::from_i128_with_scale(a.mantissa, a.scale);
    let y = rust_decimal::Decimal::from_i128_with_scale(b.mantissa, b.scale);
    x.checked_mul(y).map(|d| Dec { mantissa: d.mantissa(), scale: d.scale() })
}

/// Relies on `rust_decimal::Decimal::checked_div`: the checked quotient of
/// the two values, `None` on division by zero or overflow.
#[verifier::external_body]
pub(crate) fn dec_div(a: &Dec, b: &Dec) -> (r: Option<Dec>)
    requires
        a.wf(),
        b.wf(),
    ensures
        dec_opt(r) == dec_div_of(a@, b@),
        r matches Some(c) ==> c.wf(),
{
    let x = rust_decimal::Decimal::from_i128_with_scale(a.mantissa, a.scale);
    let y = rust_decimal::Decimal::from_i128_with_scale(b.mantissa, b.scale);
    x.checked_div(y).map(|d| Dec { mantissa: d.mantissa(), scale: d.scale() })
}

/// Relies on `rust_decimal::Decimal::round_dp_with_strategy` with
/// `MidpointAwayFromZero`: returns the value unchanged when its scale is
/// at most 2, and otherwise rounds the magnitude to two fractional
/// digits, half away from zero, exactly as `round2_spec` states.
#[verifier::external_body]
pub(crate) fn dec_round2(a: &Dec) -> (r: Dec)
    requires
        a.wf(),
    ensures
        r@ == round2_spec(a@.0, a@.1),
        r.wf(),
{
    let x = rust_decimal::Decimal::from_i128_with_scale(a.mantissa, a.scale);
    let d = x.round_dp_with_strategy(2, rust_decimal::RoundingStrategy::MidpointAwayFromZero);
    Dec { mantissa: d.mantissa(), scale: d.scale() }
}

/// `10^n` as an `i128`, for exponents up to 28.
fn pow10_i128(n: u32) -> (r: i128)
    requires
        n <= 28,
    ensures
        r == pow10(n as nat),
{
    let mut i: u32 = 0;
    let mut acc: i128 = 1;
    while i < n
        invariant
            i <= n <= 28,
            acc == pow10(i as nat),
        decreases n - i,
    {
        proof {
            lemma_pow10_pos(i as nat);
            lemma_pow10_bound((i + 1) as nat);
        }
        acc = acc * 10;
        i = i + 1;
    }
    acc
}

/// Rounding to two fractional digits is idempotent: a value that already
/// carries at most two fractional digits is returned unchanged.
pub proof fn lemma_round2_idempotent(m: int, s: int)
    ensures
        round2_spec(round2_spec(m, s).0, round2_spec(m, s).1) == round2_spec(m, s),
{
}

/// `10^n` is positive.
pub proof fn lemma_pow10_pos(n: nat)
    ensures
        pow10(n) >= 1,
    decreases n,
{
    if n > 0 {
        lemma_pow10_pos((n - 1) as nat);
    }
}

/// `10^(a+b) == 10^a * 10^b`.
pub proof fn lemma_pow10_adds(a: nat, b: nat)
    ensures
        pow10(a + b) == pow10(a) * pow10(b),
    decreases a,
{
    if a == 0 {
    } else {
        lemma_pow10_adds((a - 1) as nat, b);
        assert(pow10(a + b) == 10 * pow10((a + b - 1) as nat));
        assert(10 * (pow10((a - 1) as nat) * pow10(b)) == (10 * pow10((a - 1) as nat)) * pow10(
            b,
        )) by (nonlinear_arith);
    }
}

/// Small powers of ten stay within `10^28`.
proof fn lemma_pow10_bound(n: nat)
    requires
        n <= 28,
    ensures
        pow10(n) <= 0x204fce5e3e25026110000000,
    decreases 28 - n,
{
    if n == 28 {
        reveal_with_fuel(pow10, 30);
        assert(pow10(28) == 0x204fce5e3e25026110000000);
    } else {
        lemma_pow10_bound((n + 1) as nat);
        lemma_pow10_pos(n);
    }
}

/// Two well-formed representations denote the same number exactly when the
/// mantissa of the finer-scaled one is reached by shifting the other's.
proof fn lemma_aligned_value_eq(lo: (int, int), hi: (int, int))
    requires
        0 <= lo.1 <= hi.1 <= 28,
    ensures
        dec_val(lo) == dec_val(hi) <==> lo.0 * pow10((hi.1 - lo.1) as nat) == hi.0,
{
    let d = (hi.1 - lo.1) as nat;
    let rest = (28 - hi.1) as nat;
    lemma_pow10_adds(d, rest);
    lemma_pow10_pos(rest);
    assert(dec_val(lo) == lo.0 * (pow10(d) * pow10(rest)));
    assert(lo.0 * (pow10(d) * pow10(rest)) == (lo.0 * pow10(d)) * pow10(rest))
        by (nonlinear_arith);
    let x = lo.0 * pow10(d);
    let y = hi.0;
    let p = pow10(rest);
    assert(x * p == y * p <==> x == y) by (nonlinear_arith)
        requires
            p >= 1,
    ;
}

} // verus!
