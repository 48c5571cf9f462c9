//! Fixed-precision decimal numbers.
//!
//! A [`Decimal`] is a signed 96-bit mantissa with a scale between 0 and 28:
//! the number `mantissa / 10^scale`. Sign, absolute value and ordering are
//! decided here; sums, differences, products and quotients are computed by
//! the `rust_decimal` crate, whose rounding rules are not restated: each
//! result is known by name only, together with the few facts about zero that
//! the order and risk logic relies on.

use vstd::prelude::*;

verus! {

/// Largest magnitude of a mantissa: `2^96 - 1`.
pub const MAX_MANTISSA: i128 = 0xFFFF_FFFF_FFFF_FFFF_FFFF_FFFF;

/// Largest scale.
pub const MAX_SCALE: u32 = 28;

/// The number `mantissa / 10^scale`.
#[derive(Debug, Clone, Copy, PartialEq, Eq, Structural)]
pub struct Decimal {
    pub mantissa: i128,
    pub scale: u32,
}

/// `10^n`.
pub open spec fn pow10(n: nat) -> int
    decreases n,
{
    if n == 0 {
        1
    } else {
        10 * pow10((n - 1) as nat)
    }
}

/// What `rust_decimal` returns for `a + b`; `None` on overflow.
pub uninterp spec fn decimal_sum(a: Decimal, b: Decimal) -> Option<Decimal>;

/// What `rust_decimal` returns for `a - b`; `None` on overflow.
pub uninterp spec fn decimal_difference(a: Decimal, b: Decimal) -> Option<Decimal>;

/// What `rust_decimal` returns for `a * b`; `None` on overflow.
pub uninterp spec fn decimal_product(a: Decimal, b: Decimal) -> Option<Decimal>;

/// What `rust_decimal` returns for `a / b`; `None` on overflow or when `b`
/// is zero.
pub uninterp spec fn decimal_quotient(a: Decimal, b: Decimal) -> Option<Decimal>;

/// The text that `rust_decimal` prints for `a`.
pub uninterp spec fn decimal_text(a: Decimal) -> Seq<char>;

/// The decimal that `rust_decimal` reads out of a text; `None` where the
/// text does not write a number that it can hold.
pub uninterp spec fn decimal_read(text: Seq<char>) -> Option<Decimal>;

impl Decimal {
    /// Mantissa and scale are within the limits of the representation.
    pub open spec fn wf(self) -> bool {
        &&& self.scale <= MAX_SCALE
        &&& -MAX_MANTISSA <= self.mantissa <= MAX_MANTISSA
    }

    /// `self < other` as numbers.
    pub open spec fn lt_spec(self, other: Decimal) -> bool {
        self.mantissa * pow10(other.scale as nat) < other.mantissa * pow10(self.scale as nat)
    }

    /// `self == other` as numbers: `1.0` and `1.00` are the same value.
    pub open spec fn same_value(self, other: Decimal) -> bool {
        self.mantissa * pow10(other.scale as nat) == other.mantissa * pow10(self.scale as nat)
    }

    /// `self <= other` as numbers.
    pub open spec fn le_spec(self, other: Decimal) -> bool {
        self.lt_spec(other) || self.same_value(other)
    }

    /// The absolute value, at the same scale.
    pub open spec fn abs_spec(self) -> Decimal {
        Decimal {
            mantissa: if self.mantissa < 0 { (-self.mantissa) as i128 } else { self.mantissa },
            scale: self.scale,
        }
    }

    /// Zero, at scale 0.
    pub open spec fn zero_spec() -> Decimal {
        Decimal { mantissa: 0, scale: 0 }
    }

    /// The decimal with the given parts, if they fit the representation.
    pub fn new(mantissa: i128, scale: u32) -> (r: Option<Decimal>)
        ensures
            r == if (Decimal { mantissa, scale }).wf() {
                Some(Decimal { mantissa, scale })
            } else {
                None
            },
    {
        if scale <= MAX_SCALE && -MAX_MANTISSA <= mantissa && mantissa <= MAX_MANTISSA {
            Some(Decimal { mantissa, scale })
        } else {
            None
        }
    }

    /// Zero.
    pub fn zero() -> (r: Decimal)
        ensures
            r == Decimal::zero_spec(),
            r.wf(),
    {
        Decimal { mantissa: 0, scale: 0 }
    }

    /// The whole number `v`.
    pub fn from_int(v: i64) -> (r: Decimal)
        ensures
            r == (Decimal { mantissa: v as i128, scale: 0 }),
            r.wf(),
    {
        Decimal { mantissa: v as i128, scale: 0 }
    }

    /// The value is zero.
    pub fn is_zero(&self) -> (r: bool)
        ensures
            r == (self.mantissa == 0),
    {
        self.mantissa == 0
    }

    /// The value is above zero.
    pub fn is_positive(&self) -> (r: bool)
        ensures
            r == (self.mantissa > 0),
    {
        self.mantissa > 0
    }

    /// The value is below zero.
    pub fn is_negative(&self) -> (r: bool)
        ensures
            r == (self.mantissa < 0),
    {
        self.mantissa < 0
    }

    /// The absolute value.
    pub fn abs(&self) -> (r: Decimal)
        requires
            self.wf(),
        ensures
            r == self.abs_spec(),
            r.wf(),
    {
        if self.mantissa < 0 {
            Decimal { mantissa: -self.mantissa, scale: self.scale }
        } else {
            *self
        }
    }

    /// The value with its sign flipped.
    pub fn negated(&self) -> (r: Decimal)
        requires
            self.wf(),
        ensures
            r == (Decimal { mantissa: (-self.mantissa) as i128, scale: self.scale }),
            r.wf(),
    {
        Decimal { mantissa: -self.mantissa, scale: self.scale }
    }

    /// `self < other` as numbers.
    pub fn less_than(&self, other: &Decimal) -> (r: bool)
        requires
            self.wf(),
            other.wf(),
        ensures
            r == self.lt_spec(*other),
    {
        outside_lt(*self, *other)
    }

    /// `self == other` as numbers.
    pub fn equals(&self, other: &Decimal) -> (r: bool)
        requires
            self.wf(),
            other.wf(),
        ensures
            r == self.same_value(*other),
    {
        outside_eq(*self, *other)
    }

    /// `self <= other` as numbers.
    pub fn at_most(&self, other: &Decimal) -> (r: bool)
        requires
            self.wf(),
            other.wf(),
        ensures
            r == self.le_spec(*other),
    {
        outside_lt(*self, *other) || outside_eq(*self, *other)
    }

    /// `self > other` as numbers.
    pub fn greater_than(&self, other: &Decimal) -> (r: bool)
        requires
            self.wf(),
            other.wf(),
        ensures
            r == other.lt_spec(*self),
    {
        outside_lt(*other, *self)
    }

    /// `self >= other` as numbers.
    pub fn at_least(&self, other: &Decimal) -> (r: bool)
        requires
            self.wf(),
            other.wf(),
        ensures
            r == other.le_spec(*self),
    {
        outside_lt(*other, *self) || outside_eq(*other, *self)
    }
}

/// Every decimal has the same value as itself.
pub proof fn lemma_same_value_reflexive(a: Decimal)
    ensures
        a.same_value(a),
{
}

/// `10^n` is positive.
pub proof fn lemma_pow10_positive(n: nat)
    ensures
        pow10(n) > 0,
    decreases n,
{
    if n > 0 {
        lemma_pow10_positive((n - 1) as nat);
    }
}

/// Against zero, the order of two decimals is the sign of the mantissa.
pub proof fn lemma_order_against_zero(a: Decimal, z: Decimal)
    requires
        z.mantissa == 0,
    ensures
        a.lt_spec(z) == (a.mantissa < 0),
        z.lt_spec(a) == (a.mantissa > 0),
        a.same_value(z) == (a.mantissa == 0),
        a.le_spec(z) == (a.mantissa <= 0),
{
    lemma_pow10_positive(z.scale as nat);
    let p = pow10(z.scale as nat);
    let m = a.mantissa as int;
    assert(0 * pow10(a.scale as nat) == 0);
    assert(z.mantissa * pow10(a.scale as nat) == 0);
    assert((m * p < 0) == (m < 0)) by (nonlinear_arith)
        requires
            p > 0,
    ;
    assert((0 < m * p) == (m > 0)) by (nonlinear_arith)
        requires
            p > 0,
    ;
    assert((m * p == 0) == (m == 0)) by (nonlinear_arith)
        requires
            p > 0,
    ;
}

/// Wraps the `<` of `rust_decimal::Decimal`, which orders decimals as the
/// numbers they stand for, whatever their scales.
#[verifier::external_body]
pub(crate) fn outside_lt(a: Decimal, b: Decimal) -> (r: bool)
    requires
        a.wf(),
        b.wf(),
    ensures
        r == a.lt_spec(b),
{
    let x = rust_decimal::Decimal::from_i128_with_scale(a.mantissa, a.scale);
    let y = rust_decimal::Decimal::from_i128_with_scale(b.mantissa, b.scale);
    x < y
}

/// Wraps the `==` of `rust_decimal::Decimal`, which holds when both stand
/// for the same number, whatever their scales.
#[verifier::external_body]
pub(crate) fn outside_eq(a: Decimal, b: Decimal) -> (r: bool)
    requires
        a.wf(),
        b.wf(),
    ensures
        r == a.same_value(b),
{
    let x = rust_decimal::Decimal::from_i128_with_scale(a.mantissa, a.scale);
    let y = rust_decimal::Decimal::from_i128_with_scale(b.mantissa, b.scale);
    x == y
}

/// Wraps `rust_decimal::Decimal::checked_add`. The sum is known by name.
/// Adding zero on either side returns the other operand unchanged, mantissa
/// and scale.
#[verifier::external_body]
pub(crate) fn checked_add(a: Decimal, b: Decimal) -> (r: Option<Decimal>)
    requires
        a.wf(),
        b.wf(),
    ensures
        r == decimal_sum(a, b),
        r matches Some(d) ==> d.wf(),
        a.mantissa == 0 ==> r == Some(b),
        a.mantissa != 0 && b.mantissa == 0 ==> r == Some(a),
{
    let x = rust_decimal::Decimal::from_i128_with_scale(a.mantissa, a.scale);
    let y = rust_decimal::Decimal::from_i128_with_scale(b.mantissa, b.scale);
    x.checked_add(y).map(|d| Decimal { mantissa: d.mantissa(), scale: d.scale() })
}

/// Wraps `rust_decimal::Decimal::checked_sub`. The difference is known by
/// name. Subtracting zero returns the left operand unchanged.
#[verifier::external_body]
pub(crate) fn checked_sub(a: Decimal, b: Decimal) -> (r: Option<Decimal>)
    requires
        a.wf(),
        b.wf(),
    ensures
        r == decimal_difference(a, b),
        r matches Some(d) ==> d.wf(),
        a.mantissa != 0 && b.mantissa == 0 ==> r == Some(a),
{
    let x = rust_decimal::Decimal::from_i128_with_scale(a.mantissa, a.scale);
    let y = rust_decimal::Decimal::from_i128_with_scale(b.mantissa, b.scale);
    x.checked_sub(y).map(|d| Decimal { mantissa: d.mantissa(), scale: d.scale() })
}

/// Wraps `rust_decimal::Decimal::checked_mul`. The product is known by name.
#[verifier::external_body]
pub(crate) fn checked_mul(a: Decimal, b: Decimal) -> (r: Option<Decimal>)
    requires
        a.wf(),
        b.wf(),
    ensures
        r == decimal_product(a, b),
        r matches Some(d) ==> d.wf(),
{
    let x = rust_decimal::Decimal::from_i128_with_scale(a.mantissa, a.scale);
    let y = rust_decimal::Decimal::from_i128_with_scale(b.mantissa, b.scale);
    x.checked_mul(y).map(|d| Decimal { mantissa: d.mantissa(), scale: d.scale() })
}

/// Wraps `rust_decimal::Decimal::checked_div`. The quotient is known by
/// name; there is none when the divisor is zero.
#[verifier::external_body]
pub(crate) fn checked_div(a: Decimal, b: Decimal) -> (r: Option<Decimal>)
    requires
        a.wf(),
        b.wf(),
    ensures
        r == decimal_quotient(a, b),
        r matches Some(d) ==> d.wf(),
        b.mantissa == 0 ==> r is None,
{
    let x = rust_decimal::Decimal::from_i128_with_scale(a.mantissa, a.scale);
    let y = rust_decimal::Decimal::from_i128_with_scale(b.mantissa, b.scale);
    x.checked_div(y).map(|d| Decimal { mantissa: d.mantissa(), scale: d.scale() })
}

/// Wraps the `Display` of `rust_decimal::Decimal`. The text is known by name.
#[verifier::external_body]
pub(crate) fn to_text(a: Decimal) -> (r: String)
    requires
        a.wf(),
    ensures
        r@ == decimal_text(a),
{
    rust_decimal::Decimal::from_i128_with_scale(a.mantissa, a.scale).to_string()
}

/// Wraps the `FromStr` of `rust_decimal::Decimal`. What it reads is known
/// by name.
#[verifier::external_body]
pub(crate) fn from_text(text: &str) -> (r: Option<Decimal>)
    ensures
        r == decimal_read(text@),
        r matches Some(d) ==> d.wf(),
{
    text.parse::<rust_decimal::Decimal>().ok().map(|d| Decimal { mantissa: d.mantissa(), scale: d.scale() })
}

} // verus!
