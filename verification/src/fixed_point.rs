use vstd::prelude::*;
use crate::tuas_lib_error::TuasLibError;

verus! {

/// Whether `x` can be held in a 64-bit signed integer.
pub open spec fn fits_i64(x: int) -> bool {
    i64::MIN <= x <= i64::MAX
}

/// Whether `x` can be held in a 128-bit signed integer.
pub open spec fn fits_i128(x: int) -> bool {
    i128::MIN <= x <= i128::MAX
}

/// The exact value `x` as a quantity, or the error that it cannot be held.
pub open spec fn representable(x: int) -> Result<i64, TuasLibError> {
    if fits_i64(x) {
        Ok(x as i64)
    } else {
        Err(TuasLibError::ValueNotRepresentable)
    }
}

/// `n / d` rounded towards minus infinity as a quantity. The divisor must be
/// positive: a quotient by zero or by a negative number is not representable.
///
/// In contracts `/` on integers is Euclidean division, which for a positive
/// divisor rounds towards minus infinity.
pub open spec fn quotient(n: int, d: int) -> Result<i64, TuasLibError> {
    if d > 0 {
        representable(n / d)
    } else {
        Err(TuasLibError::ValueNotRepresentable)
    }
}

/// The opposite of a quantity, or the error that it cannot be held.
pub open spec fn negated(value: Result<i64, TuasLibError>) -> Result<i64, TuasLibError> {
    match value {
        Ok(v) => representable(-v),
        Err(e) => Err(e),
    }
}

/// `n / d` rounded towards zero, for a positive divisor: the quotient of
/// the opposite number is the opposite quotient.
pub open spec fn truncated(n: int, d: int) -> int {
    if n >= 0 {
        n / d
    } else {
        -((-n) / d)
    }
}

/// Rounding towards zero keeps the mirror image: the quotient of the
/// opposite number is the opposite quotient.
pub proof fn lemma_truncated_is_odd(n: int, d: int)
    requires
        d > 0,
    ensures
        truncated(-n, d) == -truncated(n, d),
{
    if n == 0 {
        assert(0int / d == 0) by {
            lemma_quotient_bounds(0, d);
        }
    }
}

/// A quantity shared out towards zero, reversed, is shared out reversed:
/// the flow through one tube of a bundle reverses with the flow through
/// the bundle.
pub proof fn lemma_quotient_towards_zero_is_odd(n: i64, d: i64)
    requires
        d > 0,
        n > i64::MIN,
    ensures
        quotient_towards_zero(n as int, d as int) matches Ok(q) && q > i64::MIN
            && quotient_towards_zero(-n, d as int) == Ok::<i64, TuasLibError>((-q) as i64),
{
    lemma_truncated_is_odd(n as int, d as int);
    lemma_quotient_bounds(n as int, d as int);
    lemma_quotient_bounds(-n, d as int);
}

/// `n / d` rounded towards zero as a quantity, for a positive divisor.
pub open spec fn quotient_towards_zero(n: int, d: int) -> Result<i64, TuasLibError> {
    if d > 0 {
        representable(truncated(n, d))
    } else {
        Err(TuasLibError::ValueNotRepresentable)
    }
}

/// A quotient by a positive number is no further from zero than the dividend.
pub proof fn lemma_quotient_bounds(n: int, d: int)
    requires
        d > 0,
    ensures
        n >= 0 ==> 0 <= n / d <= n,
        n <= 0 ==> n <= n / d <= 0,
{
    let q = n / d;
    let r = n % d;
    assert(n == d * q + r && 0 <= r < d) by {
        vstd::arithmetic::div_mod::lemma_fundamental_div_mod(n, d);
        vstd::arithmetic::div_mod::lemma_mod_bound(n, d);
    }
    if n >= 0 {
        assert(0 <= q <= n) by (nonlinear_arith)
            requires
                n == d * q + r,
                0 <= r < d,
                n >= 0,
        ;
    }
    if n <= 0 {
        assert(n <= q <= 0) by (nonlinear_arith)
            requires
                n == d * q + r,
                0 <= r < d,
                n <= 0,
        ;
    }
}

/// A quotient that fits 64 bits has a dividend that is less than the divisor
/// times 2 to the 63 in size.
pub proof fn lemma_dividend_bounds(n: int, d: int)
    requires
        d > 0,
        fits_i64(n / d),
    ensures
        -0x8000_0000_0000_0000 * d <= n < 0x8000_0000_0000_0000 * d,
{
    let q = n / d;
    let r = n % d;
    assert(n == d * q + r && 0 <= r < d) by {
        vstd::arithmetic::div_mod::lemma_fundamental_div_mod(n, d);
        vstd::arithmetic::div_mod::lemma_mod_bound(n, d);
    }
    assert(-0x8000_0000_0000_0000 * d <= n < 0x8000_0000_0000_0000 * d) by (nonlinear_arith)
        requires
            n == d * q + r,
            0 <= r < d,
            -0x8000_0000_0000_0000 <= q < 0x8000_0000_0000_0000,
    ;
}

/// Narrows a wide value to a quantity, or reports that it does not fit.
pub fn narrow(x: i128) -> (result: Result<i64, TuasLibError>)
    ensures
        result == representable(x as int),
{
    if x < -9_223_372_036_854_775_808i128 || x > 9_223_372_036_854_775_807i128 {
        Err(TuasLibError::ValueNotRepresentable)
    } else {
        Ok(x as i64)
    }
}

/// `n / d` rounded towards minus infinity.
pub fn div_floor(n: i128, d: i64) -> (result: Result<i64, TuasLibError>)
    ensures
        result == quotient(n as int, d as int),
{
    if d <= 0 {
        return Err(TuasLibError::ValueNotRepresentable);
    }
    proof {
        lemma_quotient_bounds(n as int, d as int);
    }
    match n.checked_div_euclid(d as i128) {
        Some(q) => narrow(q),
        None => Err(TuasLibError::ValueNotRepresentable),
    }
}

/// The opposite of `value`.
pub fn negate(value: Result<i64, TuasLibError>) -> (result: Result<i64, TuasLibError>)
    ensures
        result == negated(value),
{
    match value {
        Ok(v) => match 0i64.checked_sub(v) {
            Some(opposite) => Ok(opposite),
            None => Err(TuasLibError::ValueNotRepresentable),
        },
        Err(e) => Err(e),
    }
}

/// `n / d` rounded towards zero.
pub fn div_towards_zero(n: i64, d: i64) -> (result: Result<i64, TuasLibError>)
    ensures
        result == quotient_towards_zero(n as int, d as int),
{
    if d <= 0 {
        return Err(TuasLibError::ValueNotRepresentable);
    }
    if n >= 0 {
        div_floor(n as i128, d)
    } else {
        let opposite: i128 = -(n as i128);
        proof {
            lemma_quotient_bounds(opposite as int, d as int);
        }
        narrow(-(opposite / (d as i128)))
    }
}

/// `a * b / d` rounded towards minus infinity.
pub fn mul_div(a: i64, b: i64, d: i64) -> (result: Result<i64, TuasLibError>)
    ensures
        result == quotient(a as int * b as int, d as int),
{
    assert(i128::MIN <= a as int * b as int <= i128::MAX) by (nonlinear_arith)
        requires
            i64::MIN <= a <= i64::MAX,
            i64::MIN <= b <= i64::MAX,
    ;
    let product: i128 = (a as i128) * (b as i128);
    div_floor(product, d)
}

/// `a * b * c / d` rounded towards minus infinity.
pub fn mul_mul_div(a: i64, b: i64, c: i64, d: i64) -> (result: Result<i64, TuasLibError>)
    ensures
        result == quotient(a as int * b as int * c as int, d as int),
{
    if d <= 0 {
        return Err(TuasLibError::ValueNotRepresentable);
    }
    assert(i128::MIN <= a as int * b as int <= i128::MAX) by (nonlinear_arith)
        requires
            i64::MIN <= a <= i64::MAX,
            i64::MIN <= b <= i64::MAX,
    ;
    let product: i128 = (a as i128) * (b as i128);
    match product.checked_mul(c as i128) {
        Some(n) => div_floor(n, d),
        None => {
            proof {
                let n = a as int * b as int * c as int;
                if fits_i64(n / d as int) {
                    lemma_dividend_bounds(n, d as int);
                    assert(fits_i128(n)) by (nonlinear_arith)
                        requires
                            -0x8000_0000_0000_0000 * d <= n < 0x8000_0000_0000_0000 * d,
                            0 < d <= 0x7fff_ffff_ffff_ffff,
                    ;
                }
            }
            Err(TuasLibError::ValueNotRepresentable)
        },
    }
}

/// `x * a / d` rounded towards minus infinity, for a wide `x`.
pub fn scale_wide(x: i128, a: i64, d: i64) -> (result: Result<i64, TuasLibError>)
    ensures
        result == quotient(x as int * a as int, d as int),
{
    if d <= 0 {
        return Err(TuasLibError::ValueNotRepresentable);
    }
    match x.checked_mul(a as i128) {
        Some(n) => div_floor(n, d),
        None => {
            proof {
                let n = x as int * a as int;
                if fits_i64(n / d as int) {
                    lemma_dividend_bounds(n, d as int);
                    assert(fits_i128(n)) by (nonlinear_arith)
                        requires
                            -0x8000_0000_0000_0000 * d <= n < 0x8000_0000_0000_0000 * d,
                            0 < d <= 0x7fff_ffff_ffff_ffff,
                    ;
                }
            }
            Err(TuasLibError::ValueNotRepresentable)
        },
    }
}

/// `a + b + c` where the exact sum fits 128 bits, whatever the partial sums do.
pub fn sum_of_three(a: i128, b: i128, c: i128) -> (result: Option<i128>)
    ensures
        result == if fits_i128(a as int + b as int + c as int) {
            Some((a as int + b as int + c as int) as i128)
        } else {
            None::<i128>
        },
{
    match a.checked_add(b) {
        Some(ab) => ab.checked_add(c),
        None => {
            // a and b have the same sign; only a third term of the other sign
            // can bring the sum back into range, and a + c cannot overflow then
            match a.checked_add(c) {
                Some(ac) => ac.checked_add(b),
                None => None,
            }
        },
    }
}

} // verus!
