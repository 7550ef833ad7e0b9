//! Fixed-point phase arithmetic shared by every stage of the pipeline.
use vstd::arithmetic::div_mod::{
    lemma_div_by_multiple, lemma_div_is_ordered, lemma_fundamental_div_mod, lemma_mod_bound,
    lemma_mod_multiples_vanish, lemma_small_mod,
};
use vstd::prelude::*;

verus! {

/// One full turn of phase, in phase units.
pub const TURN: i64 = 0x1_0000_0000;

/// The number of distinct values of a 64-bit integer.
pub open spec fn word() -> int {
    0x1_0000_0000_0000_0000
}

/// The two's-complement truncation of `x` to 64 bits: the one signed 64-bit value
/// congruent to `x` modulo 2^64.
pub open spec fn wrap_i64(x: int) -> int {
    let m = x % word();
    if m > i64::MAX {
        m - word()
    } else {
        m
    }
}

/// Division rounded toward zero, the rule of Rust's `/` on signed integers.
pub open spec fn tdiv(a: int, b: int) -> int
    recommends
        b > 0,
{
    if a >= 0 {
        a / b
    } else {
        -((-a) / b)
    }
}

/// `x` limited to the range `[lo, hi]`.
pub open spec fn clamp(x: int, lo: int, hi: int) -> int {
    if x < lo {
        lo
    } else if x > hi {
        hi
    } else {
        x
    }
}

/// The absolute value of `x`.
pub open spec fn abs(x: int) -> int {
    if x < 0 {
        -x
    } else {
        x
    }
}

/// Relies on `num_traits::clamp`: the input when it lies in `[min, max]`, else the
/// bound it passed; it asserts `min <= max`.
#[verifier::external_body]
pub(crate) fn clamp_i128(input: i128, min: i128, max: i128) -> (r: i128)
    requires
        min <= max,
    ensures
        r == clamp(input as int, min as int, max as int),
{
    num_traits::clamp(input, min, max)
}

/// A truncated value stays within the signed 64-bit range.
pub proof fn lemma_wrap_i64_range(x: int)
    ensures
        i64::MIN <= wrap_i64(x) <= i64::MAX,
{
    lemma_mod_bound(x, word());
}

/// Values congruent modulo 2^64 truncate to the same 64-bit value.
pub proof fn lemma_wrap_i64_congruent(a: int, b: int, k: int)
    requires
        a == b + k * word(),
    ensures
        wrap_i64(a) == wrap_i64(b),
{
    assert(a == word() * k + b) by (nonlinear_arith)
        requires
            a == b + k * word(),
    ;
    lemma_mod_multiples_vanish(k, b, word());
}

/// A value already in the signed 64-bit range is its own truncation.
pub proof fn lemma_wrap_i64_id(x: int)
    requires
        i64::MIN <= x <= i64::MAX,
    ensures
        wrap_i64(x) == x,
{
    if x >= 0 {
        lemma_small_mod(x as nat, word() as nat);
    } else {
        lemma_wrap_i64_congruent(x, x + word(), -1);
        lemma_small_mod((x + word()) as nat, word() as nat);
    }
}

/// Truncating before adding changes nothing: `wrap(wrap(a) + b) == wrap(a + b)`.
pub proof fn lemma_wrap_i64_add(a: int, b: int)
    ensures
        wrap_i64(wrap_i64(a) + b) == wrap_i64(a + b),
{
    let q = a / word();
    lemma_fundamental_div_mod(a, word());
    let m = a % word();
    if m > i64::MAX {
        lemma_wrap_i64_congruent(a + b, wrap_i64(a) + b, q + 1);
    } else {
        lemma_wrap_i64_congruent(a + b, wrap_i64(a) + b, q);
    }
}

/// `wrapping_add` on signed 64-bit values is truncation of the exact sum.
pub proof fn lemma_wrapping_add_i64(x: i64, y: i64)
    ensures
        x.wrapping_add(y) == wrap_i64(x + y),
{
    let s = x + y;
    if s > i64::MAX {
        lemma_wrap_i64_id(s - word());
        lemma_wrap_i64_congruent(s, s - word(), 1);
    } else if s < i64::MIN {
        lemma_wrap_i64_id(s + word());
        lemma_wrap_i64_congruent(s, s + word(), -1);
    } else {
        lemma_wrap_i64_id(s);
    }
}

/// `wrapping_sub` on signed 64-bit values is truncation of the exact difference.
pub proof fn lemma_wrapping_sub_i64(x: i64, y: i64)
    ensures
        x.wrapping_sub(y) == wrap_i64(x - y),
{
    let s = x - y;
    if s > i64::MAX {
        lemma_wrap_i64_id(s - word());
        lemma_wrap_i64_congruent(s, s - word(), 1);
    } else if s < i64::MIN {
        lemma_wrap_i64_id(s + word());
        lemma_wrap_i64_congruent(s, s + word(), -1);
    } else {
        lemma_wrap_i64_id(s);
    }
}

/// `wrapping_mul` on signed 64-bit values is truncation of the exact product.
pub proof fn lemma_wrapping_mul_i64(x: i64, y: i64)
    ensures
        x.wrapping_mul(y) == wrap_i64(x * y),
{
    lemma_wrap_i64_range(x * y);
}

/// An arithmetic shift right by 32 bits is division by one turn, rounded down.
pub proof fn lemma_shr_turn(x: i128)
    ensures
        x >> 32u32 == x / 0x1_0000_0000,
{
    assert(x >> 32u32 == x / 0x1_0000_0000) by (bit_vector);
}

/// Sums of `n` signed 64-bit values lie in this range.
pub open spec fn sum_range(acc: int, n: int) -> bool {
    n * (i64::MIN as int) <= acc <= n * (i64::MAX as int)
}

/// The truncated average of a sum of `n` signed 64-bit values is such a value.
pub proof fn lemma_average_range(acc: int, n: int)
    requires
        n >= 1,
        sum_range(acc, n),
    ensures
        i64::MIN <= tdiv(acc, n) <= i64::MAX,
{
    if acc >= 0 {
        lemma_div_is_ordered(acc, n * (i64::MAX as int), n);
        lemma_div_by_multiple(i64::MAX as int, n);
        assert(n * (i64::MAX as int) == (i64::MAX as int) * n) by (nonlinear_arith);
    } else {
        lemma_div_is_ordered(-acc, n * (0x8000_0000_0000_0000int), n);
        lemma_div_by_multiple(0x8000_0000_0000_0000int, n);
        assert(n * (0x8000_0000_0000_0000int) == (0x8000_0000_0000_0000int) * n)
            by (nonlinear_arith);
    }
}

} // verus!
