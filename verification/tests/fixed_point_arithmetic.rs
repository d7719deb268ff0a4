use tuas_boussinesq_solver::fixed_point::{
    div_floor, div_towards_zero, mul_div, mul_mul_div, narrow, negate, scale_wide, sum_of_three,
};
use tuas_boussinesq_solver::tuas_lib_error::TuasLibError;

#[test]
fn quotients_round_towards_minus_infinity() {
    assert_eq!(mul_div(7, 3, 2), Ok(10));
    assert_eq!(mul_div(-7, 3, 2), Ok(-11));
    assert_eq!(mul_div(7, -3, 2), Ok(-11));
    assert_eq!(mul_div(-7, -3, 2), Ok(10));
    assert_eq!(div_floor(-1, 1_000_000), Ok(-1));
    assert_eq!(div_floor(0, 1_000_000), Ok(0));
    assert_eq!(div_floor(999_999, 1_000_000), Ok(0));
}

#[test]
fn quotient_by_zero_or_less_is_not_representable() {
    assert_eq!(mul_div(1, 1, 0), Err(TuasLibError::ValueNotRepresentable));
    assert_eq!(mul_div(1, 1, -1), Err(TuasLibError::ValueNotRepresentable));
    assert_eq!(div_floor(5, 0), Err(TuasLibError::ValueNotRepresentable));
    assert_eq!(mul_mul_div(1, 1, 1, 0), Err(TuasLibError::ValueNotRepresentable));
    assert_eq!(scale_wide(1, 1, 0), Err(TuasLibError::ValueNotRepresentable));
}

#[test]
fn wide_intermediates_keep_large_products_exact() {
    assert_eq!(mul_div(i64::MAX, i64::MAX, i64::MAX), Ok(i64::MAX));
    assert_eq!(mul_div(i64::MIN, i64::MAX, i64::MAX), Ok(i64::MIN));
    assert_eq!(mul_div(i64::MAX, 2, 1), Err(TuasLibError::ValueNotRepresentable));
    assert_eq!(
        mul_mul_div(3_000_000_000, 3_000_000_000, 3_000_000_000, 9_000_000_000_000_000_000),
        Ok(3_000_000_000)
    );
    assert_eq!(
        mul_mul_div(i64::MAX, i64::MAX, 4, i64::MAX),
        Err(TuasLibError::ValueNotRepresentable)
    );
    assert_eq!(scale_wide(i128::MAX, 2, 1), Err(TuasLibError::ValueNotRepresentable));
    assert_eq!(scale_wide(1_000_000_000_000_000_000_000, 3, 1_000_000_000_000), Ok(3_000_000_000));
}

#[test]
fn narrowing_reports_what_does_not_fit() {
    assert_eq!(narrow(i64::MAX as i128), Ok(i64::MAX));
    assert_eq!(narrow(i64::MIN as i128), Ok(i64::MIN));
    assert_eq!(narrow(i64::MAX as i128 + 1), Err(TuasLibError::ValueNotRepresentable));
    assert_eq!(narrow(i64::MIN as i128 - 1), Err(TuasLibError::ValueNotRepresentable));
}

#[test]
fn sum_of_three_is_exact_whatever_the_order() {
    assert_eq!(sum_of_three(i128::MAX, i128::MAX, -i128::MAX), Some(i128::MAX));
    assert_eq!(sum_of_three(i128::MAX, -i128::MAX, i128::MAX), Some(i128::MAX));
    assert_eq!(sum_of_three(-i128::MAX, i128::MAX, i128::MAX), Some(i128::MAX));
    assert_eq!(sum_of_three(i128::MIN, i128::MIN, i128::MAX), None);
    assert_eq!(sum_of_three(i128::MAX, 1, 0), None);
    assert_eq!(sum_of_three(1, 2, 3), Some(6));
}

#[test]
fn quotient_towards_zero_is_odd() {
    assert_eq!(div_towards_zero(7, 2), Ok(3));
    assert_eq!(div_towards_zero(-7, 2), Ok(-3));
    assert_eq!(div_towards_zero(-5, 10), Ok(0));
    assert_eq!(div_towards_zero(i64::MIN, 1), Ok(i64::MIN));
    assert_eq!(div_towards_zero(i64::MIN, 2), Ok(i64::MIN / 2));
    assert_eq!(div_towards_zero(1, 0), Err(TuasLibError::ValueNotRepresentable));
    assert_eq!(negate(Ok(5)), Ok(-5));
    assert_eq!(negate(Ok(i64::MIN)), Err(TuasLibError::ValueNotRepresentable));
    assert_eq!(
        negate(Err(TuasLibError::DimensionMismatch)),
        Err(TuasLibError::DimensionMismatch)
    );
}
