//! Fixed-point helpers: the scale of all fractions, scaling of a random word
//! into a range, and the integer square root.

use vstd::prelude::*;

verus! {

/// One, in millionths: the scale of every fraction in this crate.
pub const SCALE: u64 = 1_000_000;

/// Two to the power 64, the number of values a random word can take.
pub open spec fn word_range() -> int {
    0x1_0000_0000_0000_0000
}

/// The place of `word` among `span` equal slices of the whole word range:
/// `floor(word * span / 2^64)`. Words that are spread evenly over the word
/// range are spread evenly over the places.
pub open spec fn scaled(word: u64, span: u64) -> int {
    (word as int * span as int) / word_range()
}

/// The place of a word among `span` slices lies in `0 .. span`.
pub proof fn scaled_in_range(word: u64, span: u64)
    ensures
        0 <= scaled(word, span),
        span > 0 ==> scaled(word, span) < span,
        span == 0 ==> scaled(word, span) == 0,
{
    let p: int = word as int * span as int;
    assert(0 <= p) by (nonlinear_arith)
        requires
            p == word as int * span as int,
            0 <= word as int,
            0 <= span as int,
    ;
    assert(p < span as int * word_range() || span == 0) by (nonlinear_arith)
        requires
            p == word as int * span as int,
            0 <= (word as int) < word_range(),
            0 <= span as int,
    ;
    if span > 0 {
        vstd::arithmetic::div_mod::lemma_div_is_ordered(0, p, word_range());
        vstd::arithmetic::div_mod::lemma_div_by_multiple_is_strongly_ordered(
            p,
            span as int * word_range(),
            span as int,
            word_range(),
        );
        vstd::arithmetic::div_mod::lemma_div_multiples_vanish(span as int, word_range());
    } else {
        assert(p == 0) by (nonlinear_arith)
            requires
                p == word as int * span as int,
                span == 0,
        ;
    }
}

/// Scales a random word into `0..span`.
pub fn scale_word(word: u64, span: u64) -> (r: u64)
    ensures
        r == scaled(word, span),
        span > 0 ==> r < span,
{
    proof {
        scaled_in_range(word, span);
        assert(word as int * span as int <= 0xFFFF_FFFF_FFFF_FFFF * 0xFFFF_FFFF_FFFF_FFFF)
            by (nonlinear_arith)
            requires
                0 <= word as int <= 0xFFFF_FFFF_FFFF_FFFF,
                0 <= span as int <= 0xFFFF_FFFF_FFFF_FFFF,
        ;
    }
    let product: u128 = (word as u128) * (span as u128);
    let place: u128 = product / 0x1_0000_0000_0000_0000u128;
    place as u64
}

/// `value` held within `low ..= high`.
pub open spec fn clamp(value: int, low: int, high: int) -> int {
    if value < low {
        low
    } else if value > high {
        high
    } else {
        value
    }
}

/// Holds `value` within `low ..= high`.
pub(crate) fn clamp_to(value: u128, low: u64, high: u64) -> (held: u64)
    requires
        low <= high,
    ensures
        held == clamp(value as int, low as int, high as int),
        low <= held <= high,
{
    if value < low as u128 {
        low
    } else if value > high as u128 {
        high
    } else {
        value as u64
    }
}

/// A quotient is at most `bound` if the dividend is at most `bound` divisors.
pub proof fn quotient_at_most(x: int, d: int, bound: int)
    requires
        d > 0,
        x <= bound * d,
    ensures
        x / d <= bound,
{
    vstd::arithmetic::div_mod::lemma_div_is_ordered(x, bound * d, d);
    vstd::arithmetic::div_mod::lemma_div_multiples_vanish(bound, d);
    vstd::arithmetic::mul::lemma_mul_is_commutative(bound, d);
}

/// A quotient is at least `bound` if the dividend is at least `bound` divisors.
pub proof fn quotient_at_least(x: int, d: int, bound: int)
    requires
        d > 0,
        bound * d <= x,
    ensures
        bound <= x / d,
{
    vstd::arithmetic::div_mod::lemma_div_is_ordered(bound * d, x, d);
    vstd::arithmetic::div_mod::lemma_div_multiples_vanish(bound, d);
    vstd::arithmetic::mul::lemma_mul_is_commutative(bound, d);
}

/// `root` is the integer square root of `x`: the largest number whose square
/// does not exceed `x`.
pub open spec fn is_isqrt(x: int, root: int) -> bool {
    0 <= root && root * root <= x < (root + 1) * (root + 1)
}

/// The integer square root of `x` (zero for a negative `x`).
pub open spec fn isqrt(x: int) -> int {
    if x < 0 {
        0
    } else {
        choose|root: int| is_isqrt(x, root)
    }
}

/// A number has at most one integer square root.
pub proof fn isqrt_unique(x: int, a: int, b: int)
    requires
        is_isqrt(x, a),
        is_isqrt(x, b),
    ensures
        a == b,
{
    if a < b {
        assert((a + 1) * (a + 1) <= b * b) by (nonlinear_arith)
            requires
                0 <= a,
                a + 1 <= b,
        ;
    } else if b < a {
        assert((b + 1) * (b + 1) <= a * a) by (nonlinear_arith)
            requires
                0 <= b,
                b + 1 <= a,
        ;
    }
}

/// Computes the integer square root by bisection.
pub fn integer_sqrt(x: u128) -> (root: u64)
    ensures
        is_isqrt(x as int, root as int),
        root == isqrt(x as int),
{
    let mut low: u128 = 0;
    let mut high: u128 = 0x1_0000_0000_0000_0000u128;
    assert(low * low <= x) by (nonlinear_arith)
        requires
            low == 0,
    ;
    assert(high * high > x) by (nonlinear_arith)
        requires
            high == 0x1_0000_0000_0000_0000u128,
            x <= u128::MAX,
    ;
    while high - low > 1
        invariant
            low < high <= 0x1_0000_0000_0000_0000u128,
            low * low <= x < high * high,
        decreases high - low,
    {
        let mid: u128 = low + (high - low) / 2;
        assert(mid * mid <= 0xFFFF_FFFF_FFFF_FFFF * 0xFFFF_FFFF_FFFF_FFFF) by (nonlinear_arith)
            requires
                0 <= mid <= 0xFFFF_FFFF_FFFF_FFFF,
        ;
        if mid * mid <= x {
            low = mid;
        } else {
            high = mid;
        }
    }
    proof {
        isqrt_unique(x as int, low as int, isqrt(x as int));
    }
    low as u64
}

} // verus!
