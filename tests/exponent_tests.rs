use big_number::exponent::{
    normal_step, plan_sum, product_exponent, quotient_exponent, DivisionByZero, MantissaRange,
    Step, SumPlan, NEGLIGIBLE_GAP,
};

#[test]
fn step_divides_large_mantissa() {
    assert_eq!(normal_step(MantissaRange::Above, 3), Step::Divide(4));
}

#[test]
fn step_multiplies_small_mantissa() {
    assert_eq!(normal_step(MantissaRange::Below, 0), Step::Multiply(-1));
}

#[test]
fn step_settles_in_range_and_at_zero() {
    assert_eq!(normal_step(MantissaRange::Within, 7), Step::Settled);
    assert_eq!(normal_step(MantissaRange::Zero, 7), Step::Settled);
}

#[test]
fn step_saturates_at_exponent_bounds() {
    assert_eq!(normal_step(MantissaRange::Above, i32::MAX), Step::Settled);
    assert_eq!(normal_step(MantissaRange::Below, i32::MIN), Step::Settled);
    assert_eq!(normal_step(MantissaRange::Above, i32::MAX - 1), Step::Divide(i32::MAX));
    assert_eq!(normal_step(MantissaRange::Below, i32::MIN + 1), Step::Multiply(i32::MIN));
}

#[test]
fn sum_with_equal_exponents_combines_directly() {
    assert_eq!(
        plan_sum(10, false, 10, false),
        SumPlan::Combine { exponent: 10, left_shift: 0, right_shift: 0 }
    );
}

#[test]
fn sum_shifts_the_smaller_exponent() {
    assert_eq!(
        plan_sum(10, false, 7, false),
        SumPlan::Combine { exponent: 10, left_shift: 0, right_shift: 3 }
    );
    assert_eq!(
        plan_sum(-4, false, 2, false),
        SumPlan::Combine { exponent: 2, left_shift: 6, right_shift: 0 }
    );
}

#[test]
fn sum_drops_negligible_operand() {
    assert_eq!(NEGLIGIBLE_GAP, 308);
    assert_eq!(
        plan_sum(308, false, 0, false),
        SumPlan::Combine { exponent: 308, left_shift: 0, right_shift: 308 }
    );
    assert_eq!(plan_sum(309, false, 0, false), SumPlan::Left);
    assert_eq!(plan_sum(0, false, 309, false), SumPlan::Right);
    assert_eq!(plan_sum(i32::MIN, false, i32::MAX, false), SumPlan::Right);
    assert_eq!(plan_sum(i32::MAX, false, i32::MIN, false), SumPlan::Left);
}

#[test]
fn sum_with_zero_keeps_other_operand() {
    assert_eq!(plan_sum(5, false, 0, true), SumPlan::Left);
    assert_eq!(plan_sum(0, true, 5, false), SumPlan::Right);
    assert_eq!(plan_sum(0, true, 0, true), SumPlan::Left);
}

#[test]
fn product_adds_exponents() {
    assert_eq!(product_exponent(5, 6), 11);
    assert_eq!(product_exponent(-3, 2), -1);
    assert_eq!(product_exponent(42, 0), 42);
}

#[test]
fn product_exponent_saturates() {
    assert_eq!(product_exponent(i32::MAX, 1), i32::MAX);
    assert_eq!(product_exponent(i32::MIN, -1), i32::MIN);
}

#[test]
fn quotient_subtracts_exponents() {
    assert_eq!(quotient_exponent(10, 5, false), Ok(5));
    assert_eq!(quotient_exponent(i32::MIN, 1, false), Ok(i32::MIN));
    assert_eq!(quotient_exponent(i32::MAX, -1, false), Ok(i32::MAX));
}

#[test]
fn quotient_by_zero_is_an_error() {
    assert_eq!(quotient_exponent(10, 5, true), Err(DivisionByZero));
    assert_eq!(quotient_exponent(0, 0, true), Err(DivisionByZero));
}

#[test]
fn quotient_undoes_product() {
    let p = product_exponent(12, 5);
    assert_eq!(quotient_exponent(p, 5, false), Ok(12));
}
