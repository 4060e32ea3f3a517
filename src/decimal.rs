//! Exact base-10 fixed-point numbers for money, prices, quantities and Greeks.
//!
//! A [`Dec`] holds a signed count of 10^-8 units. Addition and subtraction are
//! exact; multiplication and division keep eight fractional digits and cut the
//! rest off toward zero. Every operation states, as a `requires`, that its exact
//! result fits in the representation, so no operation ever wraps or panics.
use vstd::prelude::*;
use vstd::arithmetic::div_mod::{
    lemma_div_by_multiple, lemma_div_is_ordered, lemma_div_pos_is_pos,
    lemma_fundamental_div_mod_converse_div,
};

verus! {

/// Number of 10^-8 units in one whole unit.
pub const SCALE: i64 = 100_000_000;

/// Number of fractional decimal digits a [`Dec`] carries.
pub const FRACTION_DIGITS: u32 = 8;

/// Ten to the power `n`.
pub open spec fn pow10(n: nat) -> int
    decreases n,
{
    if n == 0 {
        1
    } else {
        10 * pow10((n - 1) as nat)
    }
}

/// Integer division that rounds toward zero, as Rust's `/` does.
pub open spec fn tdiv(a: int, b: int) -> int {
    let q = abs_int(a) / abs_int(b);
    if (a < 0) == (b < 0) {
        q
    } else {
        -q
    }
}

pub open spec fn abs_int(a: int) -> int {
    if a < 0 {
        -a
    } else {
        a
    }
}

/// Whether a count of units can be held by a [`Dec`].
pub open spec fn fits(x: int) -> bool {
    i64::MIN <= x <= i64::MAX
}

/// Units of the product of two values given in units.
pub open spec fn mul_units(a: int, b: int) -> int {
    tdiv(a * b, SCALE as int)
}

/// Units of the quotient of two values given in units.
pub open spec fn div_units(a: int, b: int) -> int {
    tdiv(a * SCALE, b)
}

/// The [`Dec`] holding `units`, for a count that fits.
pub open spec fn dec_of(units: int) -> Dec {
    Dec { units: units as i64 }
}

pub open spec fn min_int(a: int, b: int) -> int {
    if a <= b {
        a
    } else {
        b
    }
}

pub open spec fn max_int(a: int, b: int) -> int {
    if a >= b {
        a
    } else {
        b
    }
}

/// Units of `x` held within `[lo, hi]`: first raised to `lo`, then lowered to `hi`.
pub open spec fn clamp_int(x: int, lo: int, hi: int) -> int {
    min_int(max_int(x, lo), hi)
}

/// A signed decimal number with eight fractional digits.
///
/// Its view is the number of 10^-8 units it holds, so `d@ == 150_000_000`
/// stands for 1.5.
#[derive(Clone, Copy, Debug, PartialEq, Eq, Structural)]
pub struct Dec {
    pub units: i64,
}

impl View for Dec {
    type V = int;

    open spec fn view(&self) -> int {
        self.units as int
    }
}

impl PartialOrd for Dec {
    fn partial_cmp(&self, other: &Dec) -> (r: Option<core::cmp::Ordering>) {
        if self.units < other.units {
            Some(core::cmp::Ordering::Less)
        } else if self.units > other.units {
            Some(core::cmp::Ordering::Greater)
        } else {
            Some(core::cmp::Ordering::Equal)
        }
    }
}

impl vstd::std_specs::cmp::PartialOrdSpecImpl for Dec {
    open spec fn obeys_partial_cmp_spec() -> bool {
        true
    }

    open spec fn partial_cmp_spec(&self, other: &Dec) -> Option<core::cmp::Ordering> {
        if self@ < other@ {
            Some(core::cmp::Ordering::Less)
        } else if self@ > other@ {
            Some(core::cmp::Ordering::Greater)
        } else {
            Some(core::cmp::Ordering::Equal)
        }
    }
}

proof fn lemma_tdiv_bound(a: int, b: int)
    requires
        b > 0,
    ensures
        abs_int(tdiv(a, b)) <= abs_int(a),
        a >= 0 ==> tdiv(a, b) >= 0,
        a <= 0 ==> tdiv(a, b) <= 0,
{
    assert(abs_int(a) / b <= abs_int(a)) by (nonlinear_arith)
        requires
            b > 0,
            abs_int(a) >= 0,
    ;
    assert(abs_int(a) / b >= 0) by (nonlinear_arith)
        requires
            b > 0,
            abs_int(a) >= 0,
    ;
}

/// Divides `a` by a positive `b`, rounding toward zero.
fn tdiv_i128(a: i128, b: i128) -> (r: i128)
    requires
        b > 0,
        a > i128::MIN,
    ensures
        r as int == tdiv(a as int, b as int),
{
    proof {
        lemma_tdiv_bound(a as int, b as int);
    }
    if a >= 0 {
        a / b
    } else {
        let q = (-a) / b;
        -q
    }
}

impl Dec {
    /// The value made of `units` steps of 10^-8.
    pub fn from_units(units: i64) -> (r: Dec)
        ensures
            r@ == units as int,
    {
        Dec { units }
    }

    /// The count of 10^-8 units held.
    pub fn units(&self) -> (r: i64)
        ensures
            r as int == self@,
    {
        self.units
    }

    /// Zero.
    pub fn zero() -> (r: Dec)
        ensures
            r@ == 0,
    {
        Dec { units: 0 }
    }

    /// One.
    pub fn one() -> (r: Dec)
        ensures
            r@ == SCALE as int,
    {
        Dec { units: SCALE }
    }

    /// The largest value a [`Dec`] can hold.
    pub fn max_value() -> (r: Dec)
        ensures
            r@ == i64::MAX as int,
            forall|d: Dec| d@ <= r@,
    {
        Dec { units: i64::MAX }
    }

    /// The whole number `n`.
    pub fn from_int(n: i64) -> (r: Dec)
        requires
            fits(n * SCALE),
        ensures
            r@ == n * SCALE,
    {
        Dec { units: n * SCALE }
    }

    /// The value `mantissa * 10^-scale`, for a scale of at most eight digits.
    pub fn new(mantissa: i64, scale: u32) -> (r: Dec)
        requires
            scale <= FRACTION_DIGITS,
            fits(mantissa * pow10((FRACTION_DIGITS - scale) as nat)),
        ensures
            r@ == mantissa * pow10((FRACTION_DIGITS - scale) as nat),
    {
        let factor = scale_factor(scale);
        proof {
            lemma_widened_product(mantissa as int, factor as int);
        }
        Dec { units: (mantissa as i128 * factor) as i64 }
    }

    /// The value `mantissa * 10^-scale`, when it can be held exactly: the
    /// scale is at most eight digits and the result fits.
    pub fn from_parts(mantissa: i128, scale: u32) -> (r: Option<Dec>)
        ensures
            r == (if scale <= FRACTION_DIGITS && fits(
                mantissa * pow10((FRACTION_DIGITS - scale) as nat),
            ) {
                Some(dec_of(mantissa * pow10((FRACTION_DIGITS - scale) as nat)))
            } else {
                None
            }),
    {
        if scale > FRACTION_DIGITS {
            return None;
        }
        let factor = scale_factor(scale);
        if mantissa < i64::MIN as i128 || mantissa > i64::MAX as i128 {
            proof {
                assert(!fits(mantissa * factor)) by (nonlinear_arith)
                    requires
                        mantissa < i64::MIN || mantissa > i64::MAX,
                        1 <= factor,
                ;
            }
            return None;
        }
        proof {
            lemma_widened_product(mantissa as int, factor as int);
        }
        let u = mantissa * factor;
        if u < i64::MIN as i128 || u > i64::MAX as i128 {
            None
        } else {
            Some(Dec { units: u as i64 })
        }
    }

    /// Reads decimal text such as "-12.345" exactly; nothing when the text is
    /// not a decimal number or its value cannot be held exactly.
    pub fn from_str_exact(text: &str) -> (r: Option<Dec>)
        ensures
            r == (match decimal_text_parts(text@) {
                Some((m, s)) => if s <= FRACTION_DIGITS && fits(
                    m * pow10((FRACTION_DIGITS - s) as nat),
                ) {
                    Some(dec_of(m * pow10((FRACTION_DIGITS - s) as nat)))
                } else {
                    None
                },
                None => None,
            }),
    {
        match parse_decimal_text(text) {
            Some((mantissa, scale)) => Dec::from_parts(mantissa, scale),
            None => None,
        }
    }

    pub fn is_zero(&self) -> (r: bool)
        ensures
            r == (self@ == 0),
    {
        self.units == 0
    }

    pub fn is_positive(&self) -> (r: bool)
        ensures
            r == (self@ > 0),
    {
        self.units > 0
    }

    pub fn is_negative(&self) -> (r: bool)
        ensures
            r == (self@ < 0),
    {
        self.units < 0
    }

    /// Exact sum.
    pub fn add(self, other: Dec) -> (r: Dec)
        requires
            fits(self@ + other@),
        ensures
            r@ == self@ + other@,
    {
        Dec { units: self.units + other.units }
    }

    /// Exact difference.
    pub fn sub(self, other: Dec) -> (r: Dec)
        requires
            fits(self@ - other@),
        ensures
            r@ == self@ - other@,
    {
        Dec { units: self.units - other.units }
    }

    /// Exact negation.
    pub fn neg(self) -> (r: Dec)
        requires
            fits(-self@),
        ensures
            r@ == -self@,
    {
        Dec { units: -self.units }
    }

    /// Absolute value.
    pub fn abs(self) -> (r: Dec)
        requires
            fits(abs_int(self@)),
        ensures
            r@ == abs_int(self@),
    {
        if self.units < 0 {
            Dec { units: -self.units }
        } else {
            self
        }
    }

    /// Product, with the digits past the eighth cut off toward zero.
    pub fn mul(self, other: Dec) -> (r: Dec)
        requires
            fits(mul_units(self@, other@)),
        ensures
            r@ == mul_units(self@, other@),
    {
        let a = self.units as i128;
        let b = other.units as i128;
        proof {
            lemma_product_bound(a as int, b as int);
        }
        let p = a * b;
        Dec { units: tdiv_i128(p, SCALE as i128) as i64 }
    }

    /// Quotient, with the digits past the eighth cut off toward zero.
    pub fn div(self, other: Dec) -> (r: Dec)
        requires
            other@ != 0,
            fits(div_units(self@, other@)),
        ensures
            r@ == div_units(self@, other@),
    {
        let a = self.units as i128;
        proof {
            lemma_scaled_bound(a as int);
        }
        let p = a * (SCALE as i128);
        let b = other.units as i128;
        proof {
            lemma_tdiv_bound(p as int, abs_int(b as int));
        }
        if b > 0 {
            Dec { units: tdiv_i128(p, b) as i64 }
        } else {
            let q = tdiv_i128(p, -b);
            proof {
                assert(abs_int(-(b as int)) == abs_int(b as int));
            }
            Dec { units: -q as i64 }
        }
    }

    /// The smaller of the two values.
    pub fn min(self, other: Dec) -> (r: Dec)
        ensures
            r@ == min_int(self@, other@),
    {
        if self.units <= other.units {
            self
        } else {
            other
        }
    }

    /// The larger of the two values.
    pub fn max(self, other: Dec) -> (r: Dec)
        ensures
            r@ == max_int(self@, other@),
    {
        if self.units >= other.units {
            self
        } else {
            other
        }
    }

    /// The largest whole number not above the value.
    pub fn floor(self) -> (r: Dec)
        requires
            fits((self@ / SCALE as int) * SCALE),
        ensures
            r@ == (self@ / SCALE as int) * SCALE,
    {
        let s: i128 = SCALE as i128;
        if self.units >= 0 {
            let a: i128 = self.units as i128;
            let q = a / s;
            proof {
                lemma_fundamental_div_mod_converse_div(a as int, s as int, q as int, (a % s) as int);
            }
            Dec { units: (q * s) as i64 }
        } else {
            let a: i128 = -(self.units as i128);
            let q = a / s;
            let m = a % s;
            let k: i128 = if m == 0 {
                q
            } else {
                q + 1
            };
            proof {
                let v = self@;
                assert(a == q * s + m);
                if m == 0 {
                    assert(v == (-q) * s + 0);
                    lemma_fundamental_div_mod_converse_div(v, s as int, -q, 0);
                } else {
                    assert(v == (-(q + 1)) * s + (s - m)) by (nonlinear_arith)
                        requires
                            v == -a,
                            a == q * s + m,
                    ;
                    lemma_fundamental_div_mod_converse_div(v, s as int, -(q + 1), s - m);
                }
            }
            Dec { units: (-(k * s)) as i64 }
        }
    }

    /// The smallest whole number not below the value.
    pub fn ceil(self) -> (r: Dec)
        requires
            fits(-self@),
            fits(((-self@) / SCALE as int) * SCALE),
            fits(-(((-self@) / SCALE as int) * SCALE)),
        ensures
            r@ == -(((-self@) / SCALE as int) * SCALE),
    {
        self.neg().floor().neg()
    }
}

/// Products do not depend on the order of the factors.
pub proof fn lemma_mul_commutes(a: int, b: int)
    ensures
        mul_units(a, b) == mul_units(b, a),
{
    assert(a * b == b * a) by (nonlinear_arith);
}

/// Dividing an exact multiple gives the factor back.
pub proof fn lemma_tdiv_exact(q: int, d: int)
    requires
        d > 0,
    ensures
        tdiv(q * d, d) == q,
{
    assert(abs_int(q * d) == abs_int(q) * d) by (nonlinear_arith)
        requires
            d > 0,
    ;
    assert((q * d < 0) == (q < 0)) by (nonlinear_arith)
        requires
            d > 0,
    ;
    lemma_fundamental_div_mod_converse_div(abs_int(q) * d, d, abs_int(q), 0);
}

/// Dividing by at least one whole unit does not make a value grow.
pub proof fn lemma_div_small_divisor_fits(a: int, b: int)
    requires
        fits(a),
        b >= SCALE,
    ensures
        fits(div_units(a, b)),
        abs_int(div_units(a, b)) <= abs_int(a),
{
    let x = abs_int(a) * SCALE;
    if a < 0 {
        assert(a * SCALE < 0 && -(a * SCALE) == (-a) * SCALE) by (nonlinear_arith)
            requires
                a < 0,
        ;
    } else {
        assert(a * SCALE >= 0) by (nonlinear_arith)
            requires
                a >= 0,
        ;
    }
    assert(x <= abs_int(a) * b) by (nonlinear_arith)
        requires
            b >= SCALE,
            abs_int(a) >= 0,
            x == abs_int(a) * SCALE,
    ;
    lemma_div_is_ordered(x, abs_int(a) * b, b);
    lemma_div_by_multiple(abs_int(a), b);
    lemma_div_pos_is_pos(x, b);
}

/// Division rounding toward zero keeps order.
pub proof fn lemma_tdiv_monotone(x: int, y: int, d: int)
    requires
        x <= y,
        d > 0,
    ensures
        tdiv(x, d) <= tdiv(y, d),
{
    if x >= 0 {
        lemma_div_is_ordered(x, y, d);
    } else if y < 0 {
        lemma_div_is_ordered(-y, -x, d);
    } else {
        lemma_div_pos_is_pos(-x, d);
        lemma_div_pos_is_pos(y, d);
    }
}

/// Products of non-negative values keep order in both factors.
pub proof fn lemma_mul_monotone(a1: int, a2: int, b1: int, b2: int)
    requires
        0 <= a1 <= a2,
        0 <= b1 <= b2,
    ensures
        0 <= mul_units(a1, b1) <= mul_units(a2, b2),
{
    assert(0 <= a1 * b1 <= a2 * b2) by (nonlinear_arith)
        requires
            0 <= a1 <= a2,
            0 <= b1 <= b2,
    ;
    lemma_tdiv_monotone(a1 * b1, a2 * b2, SCALE as int);
    lemma_div_pos_is_pos(a1 * b1, SCALE as int);
}

/// Multiplying by a non-negative value keeps order, whatever the signs of
/// the values compared.
pub proof fn lemma_mul_monotone_left(a1: int, a2: int, b: int)
    requires
        a1 <= a2,
        b >= 0,
    ensures
        mul_units(a1, b) <= mul_units(a2, b),
{
    assert(a1 * b <= a2 * b) by (nonlinear_arith)
        requires
            a1 <= a2,
            b >= 0,
    ;
    lemma_tdiv_monotone(a1 * b, a2 * b, SCALE as int);
}

/// 10^(8 − scale), for a scale of at most eight digits.
fn scale_factor(scale: u32) -> (r: i128)
    requires
        scale <= FRACTION_DIGITS,
    ensures
        r as int == pow10((FRACTION_DIGITS - scale) as nat),
        1 <= r <= 100_000_000,
{
    proof {
        reveal_with_fuel(pow10, 9);
    }
    let d = FRACTION_DIGITS - scale;
    if d == 0 {
        1
    } else if d == 1 {
        10
    } else if d == 2 {
        100
    } else if d == 3 {
        1_000
    } else if d == 4 {
        10_000
    } else if d == 5 {
        100_000
    } else if d == 6 {
        1_000_000
    } else if d == 7 {
        10_000_000
    } else {
        100_000_000
    }
}

proof fn lemma_widened_product(m: int, factor: int)
    requires
        fits(m),
        1 <= factor <= 100_000_000,
    ensures
        -0x8000_0000_0000_0000 * 100_000_000 <= m * factor <= 0x8000_0000_0000_0000 * 100_000_000,
{
    assert(-0x8000_0000_0000_0000 * 100_000_000 <= m * factor <= 0x8000_0000_0000_0000
        * 100_000_000) by (nonlinear_arith)
        requires
            -0x8000_0000_0000_0000 <= m <= 0x8000_0000_0000_0000,
            1 <= factor <= 100_000_000,
    ;
}

/// The mantissa and scale (number of fractional digits) that
/// `rust_decimal::Decimal::from_str_exact` reads from a text.
pub uninterp spec fn decimal_text_parts(text: Seq<char>) -> Option<(int, nat)>;

/// Relies on `rust_decimal::Decimal::from_str_exact` to read decimal text
/// without rounding, and on `mantissa` and `scale` to take the value apart.
#[verifier::external_body]
fn parse_decimal_text(text: &str) -> (r: Option<(i128, u32)>)
    ensures
        r matches Some((m, s)) ==> decimal_text_parts(text@) == Some((m as int, s as nat)),
        r is None ==> decimal_text_parts(text@) is None,
{
    match rust_decimal::Decimal::from_str_exact(text) {
        Ok(d) => Some((d.mantissa(), d.scale())),
        Err(_) => None,
    }
}

proof fn lemma_product_bound(a: int, b: int)
    requires
        fits(a),
        fits(b),
    ensures
        -0x4000_0000_0000_0000_0000_0000_0000_0000 <= a * b <= 0x4000_0000_0000_0000_0000_0000_0000_0000,
{
    assert(abs_int(a) <= 0x8000_0000_0000_0000);
    assert(abs_int(b) <= 0x8000_0000_0000_0000);
    assert(abs_int(a * b) == abs_int(a) * abs_int(b)) by (nonlinear_arith);
    assert(abs_int(a) * abs_int(b) <= 0x8000_0000_0000_0000 * 0x8000_0000_0000_0000) by (
    nonlinear_arith)
        requires
            0 <= abs_int(a) <= 0x8000_0000_0000_0000,
            0 <= abs_int(b) <= 0x8000_0000_0000_0000,
    ;
}

proof fn lemma_scaled_bound(a: int)
    requires
        fits(a),
    ensures
        -0x4000_0000_0000_0000_0000_0000_0000_0000 <= a * SCALE <= 0x4000_0000_0000_0000_0000_0000_0000_0000,
{
    assert(-0x8000_0000_0000_0000 * SCALE <= a * SCALE <= 0x8000_0000_0000_0000 * SCALE) by (
    nonlinear_arith)
        requires
            -0x8000_0000_0000_0000 <= a <= 0x8000_0000_0000_0000,
    ;
}

} // verus!
