//! Exact decimal quantities: an integer mantissa together with a count of
//! decimal places. The arithmetic itself is done by `rust_decimal`.

use vstd::prelude::*;
use crate::error::Error;

verus! {

/// Largest magnitude of a mantissa: `2^96 - 1`.
pub const MAX_MANTISSA: i128 = 79_228_162_514_264_337_593_543_950_335i128;

/// Largest number of decimal places.
pub const MAX_SCALE: u32 = 28u32;

/// `10^e`.
pub open spec fn pow10(e: nat) -> int
    decreases e,
{
    if e == 0 {
        1
    } else {
        10 * pow10((e - 1) as nat)
    }
}

/// Every power of ten is above zero.
pub proof fn lemma_pow10_positive(e: nat)
    ensures
        pow10(e) > 0,
    decreases e,
{
    if e > 0 {
        lemma_pow10_positive((e - 1) as nat);
    }
}

/// Whether a mantissa and a scale are within what a decimal can hold.
pub open spec fn in_range(mantissa: int, scale: nat) -> bool {
    -MAX_MANTISSA <= mantissa <= MAX_MANTISSA && scale <= MAX_SCALE
}

/// The number `mantissa / 10^scale`.
#[derive(Clone, Copy, Debug)]
pub struct Decimal {
    mantissa: i128,
    scale: u32,
}

/// What `rust_decimal`'s `checked_add` returns for two decimals.
pub uninterp spec fn checked_sum(a: Decimal, b: Decimal) -> Option<Decimal>;

/// What `rust_decimal`'s `checked_sub` returns for two decimals.
pub uninterp spec fn checked_difference(a: Decimal, b: Decimal) -> Option<Decimal>;

/// What `rust_decimal`'s `checked_mul` returns for two decimals.
pub uninterp spec fn checked_product(a: Decimal, b: Decimal) -> Option<Decimal>;

/// What `rust_decimal`'s `checked_div` returns for two decimals.
pub uninterp spec fn checked_quotient(a: Decimal, b: Decimal) -> Option<Decimal>;

/// What `rust_decimal` writes for a decimal when it is displayed.
pub uninterp spec fn decimal_text(d: Decimal) -> Seq<char>;

/// The decimal `rust_decimal` reads from a text, or `None` where it reads
/// none.
pub uninterp spec fn parsed_decimal(text: Seq<char>) -> Option<Decimal>;

/// Calls `to_string` of `rust_decimal::Decimal`; the contract names the
/// result.
#[verifier::external_body]
fn outside_to_string(d: Decimal) -> (r: String)
    requires
        d.wf(),
    ensures
        r@ == decimal_text(d),
{
    rust_decimal::Decimal::from_i128_with_scale(d.mantissa, d.scale).to_string()
}

/// Calls `from_str` of `rust_decimal::Decimal` and hands its failure on as
/// the words that crate gives it. The contract names the decimal that was
/// read and says that the call fails exactly where none was; a decimal that
/// was read is within range, as every decimal of that crate is. Nothing is
/// claimed of the words.
#[verifier::external_body]
fn outside_from_str(text: &str) -> (r: Result<Decimal, String>)
    ensures
        r matches Ok(d) ==> parsed_decimal(text@) == Some(d) && d.wf(),
        r is Err ==> parsed_decimal(text@) is None,
{
    match text.parse::<rust_decimal::Decimal>() {
        Ok(d) => Ok(Decimal { mantissa: d.mantissa(), scale: d.scale() }),
        Err(e) => Err(e.to_string()),
    }
}

/// Calls `rust_decimal::Decimal::checked_add`. The contract names the result
/// and repeats what the crate documents of every decimal: its mantissa is
/// below `2^96` in magnitude and its scale is at most 28.
#[verifier::external_body]
fn outside_add(a: Decimal, b: Decimal) -> (r: Option<Decimal>)
    requires
        a.wf(),
        b.wf(),
    ensures
        r == checked_sum(a, b),
        r matches Some(d) ==> d.wf(),
{
    let x = rust_decimal::Decimal::from_i128_with_scale(a.mantissa, a.scale);
    let y = rust_decimal::Decimal::from_i128_with_scale(b.mantissa, b.scale);
    x.checked_add(y).map(|d| Decimal { mantissa: d.mantissa(), scale: d.scale() })
}

/// Calls `rust_decimal::Decimal::checked_sub`; the contract is as for addition.
#[verifier::external_body]
fn outside_sub(a: Decimal, b: Decimal) -> (r: Option<Decimal>)
    requires
        a.wf(),
        b.wf(),
    ensures
        r == checked_difference(a, b),
        r matches Some(d) ==> d.wf(),
{
    let x = rust_decimal::Decimal::from_i128_with_scale(a.mantissa, a.scale);
    let y = rust_decimal::Decimal::from_i128_with_scale(b.mantissa, b.scale);
    x.checked_sub(y).map(|d| Decimal { mantissa: d.mantissa(), scale: d.scale() })
}

/// Calls `rust_decimal::Decimal::checked_mul`; the contract is as for addition.
#[verifier::external_body]
fn outside_mul(a: Decimal, b: Decimal) -> (r: Option<Decimal>)
    requires
        a.wf(),
        b.wf(),
    ensures
        r == checked_product(a, b),
        r matches Some(d) ==> d.wf(),
{
    let x = rust_decimal::Decimal::from_i128_with_scale(a.mantissa, a.scale);
    let y = rust_decimal::Decimal::from_i128_with_scale(b.mantissa, b.scale);
    x.checked_mul(y).map(|d| Decimal { mantissa: d.mantissa(), scale: d.scale() })
}

/// Calls `rust_decimal::Decimal::checked_div`; the contract is as for addition.
#[verifier::external_body]
fn outside_div(a: Decimal, b: Decimal) -> (r: Option<Decimal>)
    requires
        a.wf(),
        b.wf(),
    ensures
        r == checked_quotient(a, b),
        r matches Some(d) ==> d.wf(),
{
    let x = rust_decimal::Decimal::from_i128_with_scale(a.mantissa, a.scale);
    let y = rust_decimal::Decimal::from_i128_with_scale(b.mantissa, b.scale);
    x.checked_div(y).map(|d| Decimal { mantissa: d.mantissa(), scale: d.scale() })
}

/// Calls `<` of `rust_decimal::Decimal`, which orders decimals by the number
/// they stand for, whatever their scales.
#[verifier::external_body]
fn outside_less(a: Decimal, b: Decimal) -> (r: bool)
    requires
        a.wf(),
        b.wf(),
    ensures
        r == a.spec_lt(b),
{
    let x = rust_decimal::Decimal::from_i128_with_scale(a.mantissa, a.scale);
    let y = rust_decimal::Decimal::from_i128_with_scale(b.mantissa, b.scale);
    x < y
}

impl Decimal {
    /// The mantissa, as a mathematical integer.
    pub closed spec fn spec_mantissa(self) -> int {
        self.mantissa as int
    }

    /// The number of decimal places.
    pub closed spec fn spec_scale(self) -> nat {
        self.scale as nat
    }

    /// The decimal with the given mantissa and scale.
    pub closed spec fn from_parts(mantissa: int, scale: nat) -> Decimal {
        Decimal { mantissa: mantissa as i128, scale: scale as u32 }
    }

    /// The same magnitude with the opposite sign.
    pub open spec fn spec_neg(self) -> Decimal {
        Decimal::from_parts(-self.spec_mantissa(), self.spec_scale())
    }

    /// Every decimal that executable code holds is within range.
    #[verifier::type_invariant]
    pub open spec fn wf(self) -> bool {
        in_range(self.spec_mantissa(), self.spec_scale())
    }

    /// Strictly smaller as a number: both sides are brought to a common
    /// denominator before the mantissas are compared.
    pub open spec fn spec_lt(self, other: Decimal) -> bool {
        self.spec_mantissa() * pow10(other.spec_scale()) < other.spec_mantissa() * pow10(
            self.spec_scale(),
        )
    }

    /// Equal as numbers: `1.0` and `1.00` are.
    pub open spec fn same_value(self, other: Decimal) -> bool {
        !self.spec_lt(other) && !other.spec_lt(self)
    }

    /// A decimal made from parts within range has those parts.
    pub broadcast proof fn lemma_from_parts(mantissa: int, scale: nat)
        requires
            in_range(mantissa, scale),
        ensures
            (#[trigger] Decimal::from_parts(mantissa, scale)).spec_mantissa() == mantissa,
            Decimal::from_parts(mantissa, scale).spec_scale() == scale,
    {
    }

    /// The decimal `mantissa / 10^scale`, or `None` when either part is out of
    /// range.
    pub fn new(mantissa: i128, scale: u32) -> (r: Option<Decimal>)
        ensures
            r is Some <==> in_range(mantissa as int, scale as nat),
            r matches Some(d) ==> d == Decimal::from_parts(mantissa as int, scale as nat)
                && d.spec_mantissa() == mantissa && d.spec_scale() == scale,
    {
        if scale > MAX_SCALE || mantissa > MAX_MANTISSA || mantissa < -MAX_MANTISSA {
            None
        } else {
            Some(Decimal { mantissa, scale })
        }
    }

    /// Zero, with no decimal places.
    pub fn zero() -> (r: Decimal)
        ensures
            r == Decimal::from_parts(0, 0),
            r.spec_mantissa() == 0,
            r.spec_scale() == 0,
    {
        Decimal { mantissa: 0, scale: 0 }
    }

    /// One, with no decimal places.
    pub fn one() -> (r: Decimal)
        ensures
            r == Decimal::from_parts(1, 0),
            r.spec_mantissa() == 1,
            r.spec_scale() == 0,
    {
        Decimal { mantissa: 1, scale: 0 }
    }

    /// A whole number of units.
    pub fn from_usize(n: usize) -> (r: Decimal)
        ensures
            r == Decimal::from_parts(n as int, 0),
            r.spec_mantissa() == n,
            r.spec_scale() == 0,
    {
        Decimal { mantissa: n as i128, scale: 0 }
    }

    pub fn mantissa(&self) -> (r: i128)
        ensures
            r == self.spec_mantissa(),
            -MAX_MANTISSA <= r <= MAX_MANTISSA,
    {
        proof {
            use_type_invariant(self);
        }
        self.mantissa
    }

    pub fn scale(&self) -> (r: u32)
        ensures
            r == self.spec_scale(),
            r <= MAX_SCALE,
    {
        proof {
            use_type_invariant(self);
        }
        self.scale
    }

    /// The same magnitude with the opposite sign.
    pub fn neg(self) -> (r: Decimal)
        ensures
            r == self.spec_neg(),
            r.spec_mantissa() == -self.spec_mantissa(),
            r.spec_scale() == self.spec_scale(),
    {
        proof {
            use_type_invariant(&self);
        }
        Decimal { mantissa: -self.mantissa, scale: self.scale }
    }

    /// Whether the number is above zero.
    pub fn is_positive(&self) -> (r: bool)
        ensures
            r == (self.spec_mantissa() > 0),
    {
        self.mantissa > 0
    }

    /// Whether `self` is strictly smaller than `other` as a number.
    pub fn lt(self, other: Decimal) -> (r: bool)
        ensures
            r == self.spec_lt(other),
    {
        proof {
            use_type_invariant(&self);
            use_type_invariant(&other);
        }
        outside_less(self, other)
    }

    /// Whether `self` is strictly greater than `other` as a number.
    pub fn gt(self, other: Decimal) -> (r: bool)
        ensures
            r == other.spec_lt(self),
    {
        other.lt(self)
    }

    /// The decimal written out, as `rust_decimal` displays it.
    pub fn to_string(&self) -> (r: String)
        ensures
            r@ == decimal_text(*self),
    {
        proof {
            use_type_invariant(self);
        }
        outside_to_string(*self)
    }

    /// Reads a decimal; `ParseError` where the text is none.
    pub fn from_str(text: &str) -> (r: Result<Decimal, Error>)
        ensures
            match parsed_decimal(text@) {
                Some(d) => r matches Ok(v) && v == d,
                None => r matches Err(Error::ParseError(_)),
            },
    {
        match outside_from_str(text) {
            Ok(d) => Ok(d),
            Err(words) => Err(Error::ParseError(words)),
        }
    }

    /// `self + other`, or `None` when the sum cannot be held.
    pub fn checked_add(self, other: Decimal) -> (r: Option<Decimal>)
        ensures
            r == checked_sum(self, other),
    {
        proof {
            use_type_invariant(&self);
            use_type_invariant(&other);
        }
        outside_add(self, other)
    }

    /// `self - other`, or `None` when the difference cannot be held.
    pub fn checked_sub(self, other: Decimal) -> (r: Option<Decimal>)
        ensures
            r == checked_difference(self, other),
    {
        proof {
            use_type_invariant(&self);
            use_type_invariant(&other);
        }
        outside_sub(self, other)
    }

    /// `self * other`, or `None` when the product cannot be held.
    pub fn checked_mul(self, other: Decimal) -> (r: Option<Decimal>)
        ensures
            r == checked_product(self, other),
    {
        proof {
            use_type_invariant(&self);
            use_type_invariant(&other);
        }
        outside_mul(self, other)
    }

    /// `self / other`, or `None` when the quotient cannot be held or `other`
    /// is zero.
    pub fn checked_div(self, other: Decimal) -> (r: Option<Decimal>)
        ensures
            r == checked_quotient(self, other),
    {
        proof {
            use_type_invariant(&self);
            use_type_invariant(&other);
        }
        outside_div(self, other)
    }
}

} // verus!
