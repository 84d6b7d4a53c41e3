use vstd::prelude::*;

verus! {

/// Where the magnitude of a mantissa lies relative to the normalized range `[1, 10)`.
#[derive(Clone, Copy, Debug, PartialEq, Eq, Structural)]
pub enum MantissaRange {
    /// The mantissa is exactly zero.
    Zero,
    /// `0 < |m| < 1`.
    Below,
    /// `1 <= |m| < 10`.
    Within,
    /// `|m| >= 10`.
    Above,
}

/// One move of the normalizer.
#[derive(Clone, Copy, Debug, PartialEq, Eq, Structural)]
pub enum Step {
    /// Nothing more to do.
    Settled,
    /// Divide the mantissa by ten; the exponent becomes the one carried.
    Divide(i32),
    /// Multiply the mantissa by ten; the exponent becomes the one carried.
    Multiply(i32),
}

/// The move that the normalizer owes a mantissa in `range` at `exponent`.
pub open spec fn step_spec(range: MantissaRange, exponent: i32) -> Step {
    match range {
        MantissaRange::Above => if exponent < i32::MAX {
            Step::Divide((exponent + 1) as i32)
        } else {
            Step::Settled
        },
        MantissaRange::Below => if exponent > i32::MIN {
            Step::Multiply((exponent - 1) as i32)
        } else {
            Step::Settled
        },
        _ => Step::Settled,
    }
}

/// Decides the next move of the normalizer. A mantissa that is too large is
/// divided by ten while the exponent can still grow; one that is too small
/// is multiplied by ten while the exponent can still shrink. At either bound
/// of `i32` the normalizer stops and the mantissa is kept as it is.
pub fn normal_step(range: MantissaRange, exponent: i32) -> (r: Step)
    ensures
        r == step_spec(range, exponent),
{
    match range {
        MantissaRange::Above => if exponent < i32::MAX {
            Step::Divide(exponent + 1)
        } else {
            Step::Settled
        },
        MantissaRange::Below => if exponent > i32::MIN {
            Step::Multiply(exponent - 1)
        } else {
            Step::Settled
        },
        _ => Step::Settled,
    }
}

/// Once the normalizer has settled away from the bounds of the exponent, the
/// mantissa is zero or lies in `[1, 10)`.
pub proof fn lemma_settled_is_normalized(range: MantissaRange, exponent: i32)
    requires
        i32::MIN < exponent < i32::MAX,
        step_spec(range, exponent) == Step::Settled,
    ensures
        range == MantissaRange::Zero || range == MantissaRange::Within,
{
}

/// Beyond this many decades the smaller operand of a sum no longer shows in
/// a double-precision mantissa, and is left out.
pub const NEGLIGIBLE_GAP: i64 = 308;

/// How a sum or difference of two values is formed.
#[derive(Clone, Copy, Debug, PartialEq, Eq, Structural)]
pub enum SumPlan {
    /// The result is the left operand.
    Left,
    /// The result is the right operand (negated, for a difference).
    Right,
    /// Combine the mantissas at `exponent`, each first divided by ten to the
    /// power of its shift; at most one of the shifts is non-zero.
    Combine { exponent: i32, left_shift: u32, right_shift: u32 },
}

/// The plan for combining `left` and `right`, given their exponents and
/// whether their mantissas are zero.
pub open spec fn sum_plan_spec(left_exp: i32, left_zero: bool, right_exp: i32, right_zero: bool) -> SumPlan {
    if right_zero {
        SumPlan::Left
    } else if left_zero {
        SumPlan::Right
    } else if left_exp == right_exp {
        SumPlan::Combine { exponent: left_exp, left_shift: 0, right_shift: 0 }
    } else if left_exp > right_exp {
        if left_exp - right_exp > NEGLIGIBLE_GAP {
            SumPlan::Left
        } else {
            SumPlan::Combine {
                exponent: left_exp,
                left_shift: 0,
                right_shift: (left_exp - right_exp) as u32,
            }
        }
    } else {
        if right_exp - left_exp > NEGLIGIBLE_GAP {
            SumPlan::Right
        } else {
            SumPlan::Combine {
                exponent: right_exp,
                left_shift: (right_exp - left_exp) as u32,
                right_shift: 0,
            }
        }
    }
}

/// Aligns the exponents of two operands of a sum or difference. A zero
/// operand leaves the other one as the result; equal exponents combine
/// directly; otherwise the operand with the smaller exponent is shifted to the
/// larger one, unless the gap exceeds `NEGLIGIBLE_GAP`, in which case the
/// larger operand is the result.
pub fn plan_sum(left_exp: i32, left_zero: bool, right_exp: i32, right_zero: bool) -> (r: SumPlan)
    ensures
        r == sum_plan_spec(left_exp, left_zero, right_exp, right_zero),
{
    if right_zero {
        return SumPlan::Left;
    }
    if left_zero {
        return SumPlan::Right;
    }
    if left_exp == right_exp {
        return SumPlan::Combine { exponent: left_exp, left_shift: 0, right_shift: 0 };
    }
    let diff: i64 = left_exp as i64 - right_exp as i64;
    if diff > 0 {
        if diff > NEGLIGIBLE_GAP {
            SumPlan::Left
        } else {
            SumPlan::Combine { exponent: left_exp, left_shift: 0, right_shift: diff as u32 }
        }
    } else {
        if -diff > NEGLIGIBLE_GAP {
            SumPlan::Right
        } else {
            SumPlan::Combine { exponent: right_exp, left_shift: (-diff) as u32, right_shift: 0 }
        }
    }
}

/// A zero operand, on either side of a sum, leaves the other operand as the
/// result, whatever the exponents.
pub proof fn lemma_zero_is_additive_identity(exp: i32, zero_exp: i32, is_zero: bool)
    ensures
        sum_plan_spec(exp, is_zero, zero_exp, true) == SumPlan::Left,
        !is_zero ==> sum_plan_spec(zero_exp, true, exp, is_zero) == SumPlan::Right,
{
}

/// The plan never shifts by more than `NEGLIGIBLE_GAP` decades, and the
/// operand it shifts is the one with the smaller exponent.
pub proof fn lemma_shift_is_bounded(left_exp: i32, left_zero: bool, right_exp: i32, right_zero: bool)
    ensures
        sum_plan_spec(left_exp, left_zero, right_exp, right_zero) matches SumPlan::Combine {
            exponent,
            left_shift,
            right_shift,
        } ==> left_shift <= NEGLIGIBLE_GAP && right_shift <= NEGLIGIBLE_GAP && left_exp
            + left_shift == exponent && right_exp + right_shift == exponent,
{
}

/// `x` clamped to the range of `i32`.
pub open spec fn saturate(x: int) -> i32 {
    if x > i32::MAX {
        i32::MAX
    } else if x < i32::MIN {
        i32::MIN
    } else {
        x as i32
    }
}

fn saturate_wide(x: i64) -> (r: i32)
    ensures
        r == saturate(x as int),
{
    if x > i32::MAX as i64 {
        i32::MAX
    } else if x < i32::MIN as i64 {
        i32::MIN
    } else {
        x as i32
    }
}

/// The exponent of a product: the sum of the exponents, saturated at the
/// bounds of `i32`.
pub fn product_exponent(a: i32, b: i32) -> (r: i32)
    ensures
        r == saturate(a + b),
{
    saturate_wide(a as i64 + b as i64)
}

/// The one error of the arithmetic: a divisor whose mantissa is zero.
#[derive(Clone, Copy, Debug, PartialEq, Eq, Structural)]
pub struct DivisionByZero;

/// The exponent of a quotient: the dividend's exponent minus the divisor's,
/// saturated at the bounds of `i32`. A zero divisor is an error.
pub fn quotient_exponent(a: i32, b: i32, divisor_zero: bool) -> (r: Result<i32, DivisionByZero>)
    ensures
        divisor_zero <==> r is Err,
        !divisor_zero ==> r == Ok::<i32, DivisionByZero>(saturate(a - b)),
{
    if divisor_zero {
        Err(DivisionByZero)
    } else {
        Ok(saturate_wide(a as i64 - b as i64))
    }
}

/// Multiplying by one keeps the exponent, and a mantissa already in range
/// needs no further step of the normalizer.
pub proof fn lemma_one_is_multiplicative_identity(exp: i32, range: MantissaRange)
    requires
        range == MantissaRange::Zero || range == MantissaRange::Within,
    ensures
        saturate(exp + 0) == exp,
        step_spec(range, saturate(exp + 0)) == Step::Settled,
{
}

/// Dividing a product by the same divisor gives back the first exponent,
/// while the product's exponent stays within the bounds of `i32`.
pub proof fn lemma_quotient_undoes_product(a: i32, b: i32)
    requires
        i32::MIN <= a + b <= i32::MAX,
    ensures
        saturate(saturate(a + b) - b) == a,
{
}

} // verus!
