//! The helpers of the lesson on functions and control flow.

use crate::decimal::{decimal, signed_text};
use vstd::prelude::*;

verus! {

/// The words that follow the number when it is called large.
pub open spec fn large_suffix() -> Seq<char> {
    " 是一个很大的数字"@
}

/// The words that follow the number when it is not called large.
pub open spec fn modest_suffix() -> Seq<char> {
    " 是一个不大的数字"@
}

/// The sentence that describes `n`.
pub open spec fn description_of(n: int, is_large: bool) -> Seq<char> {
    decimal(n) + if is_large {
        large_suffix()
    } else {
        modest_suffix()
    }
}

/// The sum of `a` and `b`.
pub fn calculate_sum(a: i32, b: i32) -> (sum: i32)
    requires
        i32::MIN <= a + b <= i32::MAX,
    ensures
        sum == a + b,
{
    a + b
}

/// The product of `a` and `b`.
pub fn multiply(a: i32, b: i32) -> (product: i32)
    requires
        i32::MIN <= a * b <= i32::MAX,
    ensures
        product == a * b,
{
    a * b
}

/// Describes `n` in a sentence: the number in decimal, then whether it counts
/// as large, as the caller says.
pub fn describe_number(n: i32, is_large: bool) -> (sentence: String)
    ensures
        sentence@ == description_of(n as int, is_large),
{
    let mut sentence: String = signed_text(n as i64);
    if is_large {
        sentence.append(" 是一个很大的数字");
    } else {
        sentence.append(" 是一个不大的数字");
    }
    sentence
}

/// Raises `*value` by `amount`.
pub fn increment(value: &mut i32, amount: i32)
    requires
        i32::MIN <= *old(value) + amount <= i32::MAX,
    ensures
        *final(value) == *old(value) + amount,
{
    *value = *value + amount;
}

/// The square of `x`.
pub fn square(x: i32) -> (result: i32)
    requires
        x * x <= i32::MAX,
    ensures
        result == x * x,
{
    assert(x * x >= 0) by (nonlinear_arith);
    x * x
}

/// The larger of `a` and `b`.
pub fn find_max(a: i32, b: i32) -> (max: i32)
    ensures
        max >= a,
        max >= b,
        max == a || max == b,
{
    if a > b {
        return a;
    } else {
        return b;
    }
}

/// The sum and the product of `a` and `b`, in that order.
pub fn calculate_sum_and_product(a: i32, b: i32) -> (both: (i32, i32))
    requires
        i32::MIN <= a + b <= i32::MAX,
        i32::MIN <= a * b <= i32::MAX,
    ensures
        both.0 == a + b,
        both.1 == a * b,
{
    (a + b, a * b)
}

} // verus!
