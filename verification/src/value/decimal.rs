use vstd::prelude::*;

verus! {

/// An arbitrary-precision decimal number: an integer, written in two's
/// complement with the most significant byte first, times ten to the power of
/// minus `scale`.
#[derive(Debug, PartialEq, Eq)]
pub struct Decimal {
    pub unscaled: Vec<u8>,
    pub scale: i64,
}

/// The mathematical content of a [`Decimal`].
pub struct DecimalView {
    pub unscaled: Seq<u8>,
    pub scale: i64,
}

impl View for Decimal {
    type V = DecimalView;

    open spec fn view(&self) -> DecimalView {
        DecimalView { unscaled: self.unscaled@, scale: self.scale }
    }
}

impl Clone for Decimal {
    fn clone(&self) -> (copy: Self)
        ensures
            copy@ == self@,
    {
        Decimal { unscaled: self.unscaled.clone(), scale: self.scale }
    }
}

/// The largest distance from zero of the scale of a decimal that takes part
/// in arithmetic. The arithmetic builds ten to the power of the difference
/// of two scales in memory; with scales within this limit that power has
/// no more digits than the address space of a 32-bit machine holds.
pub const SCALE_LIMIT: i64 = 0x7fff_ffff;

/// The number of significant digits that roots of decimals are computed to.
pub const ROOT_PRECISION: u64 = 100;

impl DecimalView {
    /// Whether the scale is within the limit for arithmetic.
    pub open spec fn within_limit(self) -> bool {
        -SCALE_LIMIT <= self.scale <= SCALE_LIMIT
    }
}

impl Decimal {
    /// Whether the scale is within the limit for arithmetic.
    pub fn within_limit(&self) -> (within: bool)
        ensures
            within == self@.within_limit(),
    {
        -SCALE_LIMIT <= self.scale && self.scale <= SCALE_LIMIT
    }
}

/// The sum of two decimals.
pub uninterp spec fn decimal_sum(left: DecimalView, right: DecimalView) -> DecimalView;

/// `Add::add` of `bigdecimal::BigDecimal`: the sum of two decimals
/// whose scales are within the limit.
#[verifier::external_body]
pub(crate) fn decimal_add(left: &Decimal, right: &Decimal) -> (sum: Decimal)
    requires
        left@.within_limit(),
        right@.within_limit(),
    ensures
        sum@ == decimal_sum(left@, right@),
{
    let l = bigdecimal::BigDecimal::new(
        bigdecimal::num_bigint::BigInt::from_signed_bytes_be(&left.unscaled),
        left.scale,
    );
    let r = bigdecimal::BigDecimal::new(
        bigdecimal::num_bigint::BigInt::from_signed_bytes_be(&right.unscaled),
        right.scale,
    );
    let (digits, scale) = (l + r).into_bigint_and_exponent();
    Decimal { unscaled: digits.to_signed_bytes_be(), scale }
}

/// The difference of two decimals.
pub uninterp spec fn decimal_difference(left: DecimalView, right: DecimalView) -> DecimalView;

/// `Sub::sub` of `bigdecimal::BigDecimal`: the difference of two decimals
/// whose scales are within the limit.
#[verifier::external_body]
pub(crate) fn decimal_sub(left: &Decimal, right: &Decimal) -> (difference: Decimal)
    requires
        left@.within_limit(),
        right@.within_limit(),
    ensures
        difference@ == decimal_difference(left@, right@),
{
    let l = bigdecimal::BigDecimal::new(
        bigdecimal::num_bigint::BigInt::from_signed_bytes_be(&left.unscaled),
        left.scale,
    );
    let r = bigdecimal::BigDecimal::new(
        bigdecimal::num_bigint::BigInt::from_signed_bytes_be(&right.unscaled),
        right.scale,
    );
    let (digits, scale) = (l - r).into_bigint_and_exponent();
    Decimal { unscaled: digits.to_signed_bytes_be(), scale }
}

/// The product of two decimals.
pub uninterp spec fn decimal_product(left: DecimalView, right: DecimalView) -> DecimalView;

/// `Mul::mul` of `bigdecimal::BigDecimal`: the product of two decimals
/// whose scales are within the limit.
#[verifier::external_body]
pub(crate) fn decimal_mul(left: &Decimal, right: &Decimal) -> (product: Decimal)
    requires
        left@.within_limit(),
        right@.within_limit(),
    ensures
        product@ == decimal_product(left@, right@),
{
    let l = bigdecimal::BigDecimal::new(
        bigdecimal::num_bigint::BigInt::from_signed_bytes_be(&left.unscaled),
        left.scale,
    );
    let r = bigdecimal::BigDecimal::new(
        bigdecimal::num_bigint::BigInt::from_signed_bytes_be(&right.unscaled),
        right.scale,
    );
    let (digits, scale) = (l * r).into_bigint_and_exponent();
    Decimal { unscaled: digits.to_signed_bytes_be(), scale }
}

/// The remainder of the division of one decimal by another that is not
/// zero.
pub uninterp spec fn decimal_remainder(left: DecimalView, right: DecimalView) -> DecimalView;

/// `Rem::rem` of `bigdecimal::BigDecimal`: the remainder of the division of
/// two decimals whose scales are within the limit, by a divisor that is not
/// zero.
#[verifier::external_body]
pub(crate) fn decimal_rem(left: &Decimal, right: &Decimal) -> (remainder: Decimal)
    requires
        left@.within_limit(),
        right@.within_limit(),
        !decimal_is_zero(right@),
    ensures
        remainder@ == decimal_remainder(left@, right@),
{
    let l = bigdecimal::BigDecimal::new(
        bigdecimal::num_bigint::BigInt::from_signed_bytes_be(&left.unscaled),
        left.scale,
    );
    let r = bigdecimal::BigDecimal::new(
        bigdecimal::num_bigint::BigInt::from_signed_bytes_be(&right.unscaled),
        right.scale,
    );
    let (digits, scale) = (l % r).into_bigint_and_exponent();
    Decimal { unscaled: digits.to_signed_bytes_be(), scale }
}

/// `Div::div` of `bigdecimal::BigDecimal`: the quotient of two decimals
/// whose scales are within the limit, by a divisor that is not zero. The
/// number of digits of the quotient depends on how the crate was built, so
/// nothing is said of it.
#[verifier::external_body]
pub(crate) fn decimal_div(left: &Decimal, right: &Decimal) -> (quotient: Decimal)
    requires
        left@.within_limit(),
        right@.within_limit(),
        !decimal_is_zero(right@),
{
    let l = bigdecimal::BigDecimal::new(
        bigdecimal::num_bigint::BigInt::from_signed_bytes_be(&left.unscaled),
        left.scale,
    );
    let r = bigdecimal::BigDecimal::new(
        bigdecimal::num_bigint::BigInt::from_signed_bytes_be(&right.unscaled),
        right.scale,
    );
    let (digits, scale) = (l / r).into_bigint_and_exponent();
    Decimal { unscaled: digits.to_signed_bytes_be(), scale }
}

/// Whether a decimal is zero: every byte of its digits is zero.
pub open spec fn decimal_is_zero(d: DecimalView) -> bool {
    forall|i: int| 0 <= i < d.unscaled.len() ==> d.unscaled[i] == 0
}

/// `num_traits::Zero::is_zero` of `bigdecimal::BigDecimal`: whether the
/// decimal is zero. The digits are read as a number in two's complement,
/// which is zero just where every byte is zero.
#[verifier::external_body]
pub(crate) fn decimal_zero(d: &Decimal) -> (zero: bool)
    ensures
        zero == decimal_is_zero(d@),
{
    let big = bigdecimal::BigDecimal::new(
        bigdecimal::num_bigint::BigInt::from_signed_bytes_be(&d.unscaled),
        d.scale,
    );
    bigdecimal::num_traits::Zero::is_zero(&big)
}

/// Whether a decimal has no fractional part.
pub uninterp spec fn decimal_is_integer(d: DecimalView) -> bool;

/// `bigdecimal::BigDecimal::is_integer`: whether the decimal, whose scale
/// is within the limit, has no fractional part.
#[verifier::external_body]
pub(crate) fn decimal_integer(d: &Decimal) -> (integral: bool)
    requires
        d@.within_limit(),
    ensures
        integral == decimal_is_integer(d@),
{
    let big = bigdecimal::BigDecimal::new(
        bigdecimal::num_bigint::BigInt::from_signed_bytes_be(&d.unscaled),
        d.scale,
    );
    big.is_integer()
}

/// Whether one decimal is less than another.
pub uninterp spec fn decimal_is_less(left: DecimalView, right: DecimalView) -> bool;

/// `PartialOrd::lt` of `bigdecimal::BigDecimal`: whether the first of two
/// decimals whose scales are within the limit is less than the second.
#[verifier::external_body]
pub(crate) fn decimal_less(left: &Decimal, right: &Decimal) -> (less: bool)
    requires
        left@.within_limit(),
        right@.within_limit(),
    ensures
        less == decimal_is_less(left@, right@),
{
    let l = bigdecimal::BigDecimal::new(
        bigdecimal::num_bigint::BigInt::from_signed_bytes_be(&left.unscaled),
        left.scale,
    );
    let r = bigdecimal::BigDecimal::new(
        bigdecimal::num_bigint::BigInt::from_signed_bytes_be(&right.unscaled),
        right.scale,
    );
    l < r
}

/// A decimal brought to another scale: digits are added, or dropped, at
/// its end.
pub uninterp spec fn decimal_rescaled(d: DecimalView, scale: i64) -> DecimalView;

/// `bigdecimal::BigDecimal::with_scale`: the decimal, whose scale is within
/// the limit, brought to a scale within the limit.
#[verifier::external_body]
pub(crate) fn decimal_with_scale(d: &Decimal, scale: i64) -> (rescaled: Decimal)
    requires
        d@.within_limit(),
        -SCALE_LIMIT <= scale <= SCALE_LIMIT,
    ensures
        rescaled@ == decimal_rescaled(d@, scale),
        rescaled@.scale == scale,
{
    let big = bigdecimal::BigDecimal::new(
        bigdecimal::num_bigint::BigInt::from_signed_bytes_be(&d.unscaled),
        d.scale,
    );
    let (digits, scale) = big.with_scale(scale).into_bigint_and_exponent();
    Decimal { unscaled: digits.to_signed_bytes_be(), scale }
}

/// A decimal rounded to a number of digits after the point, halves to the
/// even neighbour.
pub uninterp spec fn decimal_rounded(d: DecimalView, digits: i64) -> DecimalView;

/// `bigdecimal::BigDecimal::with_scale_round` with the rounding mode
/// `HalfEven`: the decimal, whose scale is within the limit, rounded to a
/// number of digits within the limit.
#[verifier::external_body]
pub(crate) fn decimal_round(d: &Decimal, digits: i64) -> (rounded: Decimal)
    requires
        d@.within_limit(),
        -SCALE_LIMIT <= digits <= SCALE_LIMIT,
    ensures
        rounded@ == decimal_rounded(d@, digits),
{
    let big = bigdecimal::BigDecimal::new(
        bigdecimal::num_bigint::BigInt::from_signed_bytes_be(&d.unscaled),
        d.scale,
    );
    let (digits, scale) = big.with_scale_round(
        digits,
        bigdecimal::RoundingMode::HalfEven,
    ).into_bigint_and_exponent();
    Decimal { unscaled: digits.to_signed_bytes_be(), scale }
}

/// The distance of a decimal from zero.
pub uninterp spec fn decimal_magnitude(d: DecimalView) -> DecimalView;

/// `bigdecimal::BigDecimal::abs`: the distance of the decimal from zero.
#[verifier::external_body]
pub(crate) fn decimal_abs(d: &Decimal) -> (magnitude: Decimal)
    ensures
        magnitude@ == decimal_magnitude(d@),
{
    let big = bigdecimal::BigDecimal::new(
        bigdecimal::num_bigint::BigInt::from_signed_bytes_be(&d.unscaled),
        d.scale,
    );
    let (digits, scale) = big.abs().into_bigint_and_exponent();
    Decimal { unscaled: digits.to_signed_bytes_be(), scale }
}

/// The square root of a decimal to a number of significant digits, halves
/// rounded to the even neighbour; `None` for a negative decimal.
pub uninterp spec fn decimal_square_root(d: DecimalView, precision: u64) -> Option<DecimalView>;

/// `bigdecimal::BigDecimal::sqrt_with_context`, with a context of the
/// precision given and the rounding mode `HalfEven`: the square root of the
/// decimal, whose scale is within the limit; `None` for a negative decimal.
#[verifier::external_body]
pub(crate) fn decimal_sqrt(d: &Decimal, precision: u64) -> (root: Option<Decimal>)
    requires
        d@.within_limit(),
        0 < precision <= ROOT_PRECISION,
    ensures
        match root {
            Some(r) => decimal_square_root(d@, precision) == Some(r@),
            None => decimal_square_root(d@, precision) is None,
        },
{
    let big = bigdecimal::BigDecimal::new(
        bigdecimal::num_bigint::BigInt::from_signed_bytes_be(&d.unscaled),
        d.scale,
    );
    let context = bigdecimal::Context::new(
        std::num::NonZeroU64::new(precision).unwrap(),
        bigdecimal::RoundingMode::HalfEven,
    );
    big.sqrt_with_context(&context).map(|r| r.into_bigint_and_exponent()).map(
        |(digits, scale)| Decimal { unscaled: digits.to_signed_bytes_be(), scale },
    )
}

/// The cube root of a decimal to a number of significant digits, halves
/// rounded to the even neighbour.
pub uninterp spec fn decimal_cube_root(d: DecimalView, precision: u64) -> DecimalView;

/// `bigdecimal::BigDecimal::cbrt_with_context`, with a context of the
/// precision given and the rounding mode `HalfEven`: the cube root of the
/// decimal, whose scale is within the limit.
#[verifier::external_body]
pub(crate) fn decimal_cbrt(d: &Decimal, precision: u64) -> (root: Decimal)
    requires
        d@.within_limit(),
        0 < precision <= ROOT_PRECISION,
    ensures
        root@ == decimal_cube_root(d@, precision),
{
    let big = bigdecimal::BigDecimal::new(
        bigdecimal::num_bigint::BigInt::from_signed_bytes_be(&d.unscaled),
        d.scale,
    );
    let context = bigdecimal::Context::new(
        std::num::NonZeroU64::new(precision).unwrap(),
        bigdecimal::RoundingMode::HalfEven,
    );
    let (digits, scale) = big.cbrt_with_context(&context).into_bigint_and_exponent();
    Decimal { unscaled: digits.to_signed_bytes_be(), scale }
}

/// The decimal that stands for an integer.
pub uninterp spec fn decimal_of(value: i64) -> DecimalView;

/// `From<i64>` of `bigdecimal::BigDecimal`: the decimal that stands for an
/// integer.
#[verifier::external_body]
pub(crate) fn decimal_from(value: i64) -> (d: Decimal)
    ensures
        d@ == decimal_of(value),
        d@.scale == 0,
{
    let (digits, scale) = bigdecimal::BigDecimal::from(value).into_bigint_and_exponent();
    Decimal { unscaled: digits.to_signed_bytes_be(), scale }
}

} // verus!
