//! IEEE 754 binary64 values held as their bit patterns.
//!
//! A sample is a `u64` whose bits are those of a binary64 number. The spec
//! functions here state the standard's classification (NaN, finite) and its
//! ordering of non-NaN values, which is the order of the signed magnitudes.
use vstd::prelude::*;
use vstd::arithmetic::power2::*;

verus! {

/// Mask of the 52 fraction bits.
pub const FRACTION_MASK: u64 = 0x000f_ffff_ffff_ffff;

/// Mask of everything but the sign bit.
pub const MAGNITUDE_MASK: u64 = 0x7fff_ffff_ffff_ffff;

/// The bit pattern of +0.0.
pub const POSITIVE_ZERO: u64 = 0;

/// The bit pattern of 1.0.
pub const ONE: u64 = 0x3ff0_0000_0000_0000;

/// The 11-bit biased exponent field.
pub open spec fn exponent_field(b: u64) -> u64 {
    (b >> 52u64) & 0x7ffu64
}

/// The 52-bit fraction field.
pub open spec fn fraction_field(b: u64) -> u64 {
    b & FRACTION_MASK
}

/// Whether the sign bit is set.
pub open spec fn sign_set(b: u64) -> bool {
    (b >> 63u64) == 1u64
}

/// NaN: all exponent bits set and a non-zero fraction.
pub open spec fn is_nan(b: u64) -> bool {
    exponent_field(b) == 0x7ffu64 && fraction_field(b) != 0
}

/// Finite: not an infinity and not a NaN.
pub open spec fn is_finite(b: u64) -> bool {
    exponent_field(b) != 0x7ffu64
}

/// The position of a non-NaN value on the number line, as an integer whose
/// order is the order of the values. Both zeros have rank 0.
pub open spec fn rank(b: u64) -> int {
    if sign_set(b) {
        -((b & MAGNITUDE_MASK) as int)
    } else {
        (b & MAGNITUDE_MASK) as int
    }
}

/// `a < b` as binary64 values (false when either is NaN).
pub open spec fn lt(a: u64, b: u64) -> bool {
    !is_nan(a) && !is_nan(b) && rank(a) < rank(b)
}

/// `a <= b` as binary64 values (false when either is NaN).
pub open spec fn le(a: u64, b: u64) -> bool {
    !is_nan(a) && !is_nan(b) && rank(a) <= rank(b)
}

/// `a == b` as binary64 values: NaN equals nothing, and the zeros are equal.
pub open spec fn eq(a: u64, b: u64) -> bool {
    !is_nan(a) && !is_nan(b) && rank(a) == rank(b)
}

/// `b` is the binary64 encoding of the natural number `n`: zero is +0.0,
/// and a positive `n` is a normal number `(2^52 + fraction) * 2^(exponent - 1075)`
/// that equals `n` exactly.
pub open spec fn denotes_nat(b: u64, n: nat) -> bool {
    if n == 0 {
        b == 0
    } else {
        &&& !sign_set(b)
        &&& 1023 <= exponent_field(b) <= 1075
        &&& pow2(52) + fraction_field(b) == n * pow2((1075 - exponent_field(b)) as nat)
    }
}

/// Whether `b` is a NaN.
pub fn is_nan_bits(b: u64) -> (r: bool)
    ensures
        r == is_nan(b),
{
    ((b >> 52) & 0x7ff) == 0x7ff && (b & FRACTION_MASK) != 0
}

/// Whether `b` is finite.
pub fn is_finite_bits(b: u64) -> (r: bool)
    ensures
        r == is_finite(b),
{
    ((b >> 52) & 0x7ff) != 0x7ff
}

/// The rank of `b` (see [`rank`]).
fn rank_of(b: u64) -> (r: i128)
    ensures
        r == rank(b),
{
    let magnitude = (b & MAGNITUDE_MASK) as i128;
    if (b >> 63) == 1 {
        -magnitude
    } else {
        magnitude
    }
}

/// `a < b` as binary64 values.
pub fn lt_bits(a: u64, b: u64) -> (r: bool)
    ensures
        r == lt(a, b),
{
    !is_nan_bits(a) && !is_nan_bits(b) && rank_of(a) < rank_of(b)
}

/// `a <= b` as binary64 values.
pub fn le_bits(a: u64, b: u64) -> (r: bool)
    ensures
        r == le(a, b),
{
    !is_nan_bits(a) && !is_nan_bits(b) && rank_of(a) <= rank_of(b)
}

/// `a == b` as binary64 values.
pub fn eq_bits(a: u64, b: u64) -> (r: bool)
    ensures
        r == eq(a, b),
{
    !is_nan_bits(a) && !is_nan_bits(b) && rank_of(a) == rank_of(b)
}


/// `value` restricted to `[min, max]`, as `f64::clamp` does: below `min`
/// gives `min`, above `max` gives `max`, and anything else, NaN included, is
/// kept as it is.
pub open spec fn clamped(value: u64, min: u64, max: u64) -> u64 {
    if lt(value, min) {
        min
    } else if lt(max, value) {
        max
    } else {
        value
    }
}

/// `value` restricted to `[min, max]` (see [`clamped`]).
pub fn clamp_bits(value: u64, min: u64, max: u64) -> (r: u64)
    requires
        le(min, max),
    ensures
        r == clamped(value, min, max),
{
    if lt_bits(value, min) {
        min
    } else if lt_bits(max, value) {
        max
    } else {
        value
    }
}

/// Splits a sign-free pattern into its exponent and fraction fields.
proof fn lemma_fields_of_sum(e: u64, f: u64)
    requires
        e < 2048,
        f < 0x10_0000_0000_0000,
    ensures
        exponent_field((e * 0x10_0000_0000_0000 + f) as u64) == e,
        fraction_field((e * 0x10_0000_0000_0000 + f) as u64) == f,
        !sign_set((e * 0x10_0000_0000_0000 + f) as u64),
{
    assert((((e * 0x10_0000_0000_0000 + f) as u64) >> 52u64) & 0x7ffu64 == e) by (bit_vector)
        requires
            e < 2048,
            f < 0x10_0000_0000_0000,
    ;
    assert(((e * 0x10_0000_0000_0000 + f) as u64) & 0x000f_ffff_ffff_ffffu64 == f) by (bit_vector)
        requires
            e < 2048,
            f < 0x10_0000_0000_0000,
    ;
    assert((((e * 0x10_0000_0000_0000 + f) as u64) >> 63u64) == 0u64) by (bit_vector)
        requires
            e < 2048,
            f < 0x10_0000_0000_0000,
    ;
}

/// The exact binary64 encoding of a 32-bit unsigned integer.
pub fn binary64_of_u32(n: u32) -> (b: u64)
    ensures
        denotes_nat(b, n as nat),
{
    if n == 0 {
        return 0;
    }
    // Find the leading power of two: p == 2^k <= n < 2^(k+1).
    let mut p: u64 = 1;
    let mut k: u64 = 0;
    proof {
        lemma2_to64();
    }
    while p * 2 <= n as u64
        invariant
            1 <= p <= n,
            p == pow2(k as nat),
            k <= 31,
            n <= u32::MAX,
        decreases n - p,
    {
        proof {
            lemma_pow2_unfold((k + 1) as nat);
            if k == 31 {
                lemma2_to64();
                assert(false);
            }
        }
        p = p * 2;
        k = k + 1;
    }
    proof {
        lemma_pow2_adds((52 - k) as nat, k as nat);
        lemma2_to64();
        lemma_pow2_pos((52 - k) as nat);
        lemma2_to64_rest();
    }
    let q: u64 = 0x10_0000_0000_0000 / p;
    assert(q == pow2((52 - k) as nat)) by {
        assert(pow2(52) == 0x10_0000_0000_0000);
        vstd::arithmetic::div_mod::lemma_div_multiples_vanish(pow2((52 - k) as nat) as int, p as int);
        vstd::arithmetic::mul::lemma_mul_is_commutative(pow2((52 - k) as nat) as int, p as int);
    }
    assert(p * q == pow2(52)) by {
        vstd::arithmetic::mul::lemma_mul_is_commutative(p as int, q as int);
    }
    assert((n - p) * q < 0x10_0000_0000_0000) by (nonlinear_arith)
        requires
            n < 2 * p,
            p * q == 0x10_0000_0000_0000,
            p <= n,
    ;
    let frac: u64 = (n as u64 - p) * q;
    let exp: u64 = 1023 + k;
    proof {
        lemma_fields_of_sum(exp, frac);
        assert(pow2(52) + frac == n * q) by (nonlinear_arith)
            requires
                pow2(52) == p * q,
                frac == (n - p) * q,
                p <= n,
        ;
        assert((1075 - exp) as nat == (52 - k) as nat);
    }
    exp * 0x10_0000_0000_0000 + frac
}

/// A pattern without the sign bit is its exponent field times 2^52 plus its
/// fraction field, and is its own magnitude.
proof fn lemma_unsigned_decompose(b: u64)
    requires
        !sign_set(b),
    ensures
        b & MAGNITUDE_MASK == b,
        b == exponent_field(b) * 0x10_0000_0000_0000 + fraction_field(b),
{
    assert(b & 0x7fff_ffff_ffff_ffffu64 == b) by (bit_vector)
        requires
            (b >> 63u64) != 1u64,
    ;
    assert(b == ((b >> 52u64) & 0x7ffu64) * 0x10_0000_0000_0000 + (b & 0x000f_ffff_ffff_ffffu64))
        by (bit_vector)
        requires
            (b >> 63u64) != 1u64,
    ;
}

/// The encodings of natural numbers are ordered as the numbers are.
pub proof fn lemma_denotes_nat_ordered(a: u64, m: nat, b: u64, n: nat)
    requires
        denotes_nat(a, m),
        denotes_nat(b, n),
        m < n,
    ensures
        lt(a, b),
        !is_nan(a),
        !is_nan(b),
        is_finite(a),
        is_finite(b),
{
    lemma_unsigned_decompose(b);
    let eb = exponent_field(b);
    let fb = fraction_field(b);
    assert(rank(b) == eb * 0x10_0000_0000_0000 + fb);
    if m == 0 {
        assert(a & MAGNITUDE_MASK == 0) by (bit_vector)
            requires
                a == 0,
        ;
        assert((a >> 63u64) == 0u64) by (bit_vector)
            requires
                a == 0,
        ;
        assert(rank(a) == 0);
        assert(exponent_field(a) == 0) by (bit_vector)
            requires
                a == 0,
        ;
    } else {
        lemma_unsigned_decompose(a);
        let ea = exponent_field(a);
        let fa = fraction_field(a);
        assert(rank(a) == ea * 0x10_0000_0000_0000 + fa);
        assert(fa < 0x10_0000_0000_0000) by (bit_vector)
            requires
                fa == a & 0x000f_ffff_ffff_ffffu64,
        ;
        assert(fb < 0x10_0000_0000_0000) by (bit_vector)
            requires
                fb == b & 0x000f_ffff_ffff_ffffu64,
        ;
        lemma2_to64_rest();
        let sa = (1075 - ea) as nat;
        let sb = (1075 - eb) as nat;
        if ea == eb {
            lemma_pow2_pos(sa);
            assert(m * pow2(sa) < n * pow2(sa)) by (nonlinear_arith)
                requires
                    m < n,
                    pow2(sa) > 0,
            ;
        } else if ea > eb {
            lemma_pow2_adds((sb - sa - 1) as nat, sa + 1);
            lemma_pow2_pos((sb - sa - 1) as nat);
            lemma_pow2_unfold(sa + 1);
            lemma_pow2_pos(sa);
            let pa = pow2(sa);
            let pb = pow2(sb);
            let pc = pow2((sb - sa - 1) as nat);
            assert(pb == pc * (2 * pa));
            assert(false) by (nonlinear_arith)
                requires
                    m * pa >= 0x10_0000_0000_0000,
                    n * pb < 0x20_0000_0000_0000,
                    pb == pc * (2 * pa),
                    pc >= 1,
                    pa >= 1,
                    m < n,
            ;
        }
    }
}

/// A natural number has exactly one encoding.
pub proof fn lemma_denotes_nat_unique(a: u64, b: u64, n: nat)
    requires
        denotes_nat(a, n),
        denotes_nat(b, n),
    ensures
        a == b,
{
    if n > 0 {
        lemma_unsigned_decompose(a);
        lemma_unsigned_decompose(b);
        lemma2_to64_rest();
        let ea = exponent_field(a);
        let eb = exponent_field(b);
        assert(fraction_field(a) < 0x10_0000_0000_0000) by (bit_vector)
            requires
                fraction_field(a) == a & 0x000f_ffff_ffff_ffffu64,
        ;
        assert(fraction_field(b) < 0x10_0000_0000_0000) by (bit_vector)
            requires
                fraction_field(b) == b & 0x000f_ffff_ffff_ffffu64,
        ;
        if ea != eb {
            let (hi, lo) = if ea > eb { (a, b) } else { (b, a) };
            let sa = (1075 - exponent_field(hi)) as nat;
            let sb = (1075 - exponent_field(lo)) as nat;
            lemma_pow2_adds((sb - sa - 1) as nat, sa + 1);
            lemma_pow2_pos((sb - sa - 1) as nat);
            lemma_pow2_unfold(sa + 1);
            lemma_pow2_pos(sa);
            let pa = pow2(sa);
            let pb = pow2(sb);
            let pc = pow2((sb - sa - 1) as nat);
            assert(pb == pc * (2 * pa));
            assert(false) by (nonlinear_arith)
                requires
                    n * pa >= 0x10_0000_0000_0000,
                    n * pb < 0x20_0000_0000_0000,
                    pb == pc * (2 * pa),
                    pc >= 1,
                    pa >= 1,
            ;
        }
    }
}

/// The bit that holds the sign.
pub const SIGN_BIT: u64 = 0x8000_0000_0000_0000;

/// Negation (flipping the sign bit) reverses the order of non-NaN values and
/// keeps NaN and finiteness: `a < b` exactly when `-b < -a`.
pub proof fn law_negation_reverses_order(a: u64, b: u64)
    ensures
        is_nan(a ^ SIGN_BIT) == is_nan(a),
        is_finite(a ^ SIGN_BIT) == is_finite(a),
        lt(a, b) <==> lt(b ^ SIGN_BIT, a ^ SIGN_BIT),
        eq(a, b) <==> eq(a ^ SIGN_BIT, b ^ SIGN_BIT),
{
    assert(((a ^ 0x8000_0000_0000_0000u64) >> 52u64) & 0x7ffu64 == (a >> 52u64) & 0x7ffu64)
        by (bit_vector);
    assert((a ^ 0x8000_0000_0000_0000u64) & 0x000f_ffff_ffff_ffffu64 == a & 0x000f_ffff_ffff_ffffu64)
        by (bit_vector);
    assert(((b ^ 0x8000_0000_0000_0000u64) >> 52u64) & 0x7ffu64 == (b >> 52u64) & 0x7ffu64)
        by (bit_vector);
    assert((b ^ 0x8000_0000_0000_0000u64) & 0x000f_ffff_ffff_ffffu64 == b & 0x000f_ffff_ffff_ffffu64)
        by (bit_vector);
    assert((a ^ 0x8000_0000_0000_0000u64) & 0x7fff_ffff_ffff_ffffu64 == a & 0x7fff_ffff_ffff_ffffu64)
        by (bit_vector);
    assert((b ^ 0x8000_0000_0000_0000u64) & 0x7fff_ffff_ffff_ffffu64 == b & 0x7fff_ffff_ffff_ffffu64)
        by (bit_vector);
    assert(((a ^ 0x8000_0000_0000_0000u64) >> 63u64 == 1u64) == ((a >> 63u64) != 1u64))
        by (bit_vector);
    assert(((b ^ 0x8000_0000_0000_0000u64) >> 63u64 == 1u64) == ((b >> 63u64) != 1u64))
        by (bit_vector);
}

/// Clamping a non-NaN value gives a value in `[min, max]`, and gives the value
/// itself when it is already there; a NaN is kept.
pub proof fn law_clamp_range(value: u64, min: u64, max: u64)
    requires
        le(min, max),
    ensures
        !is_nan(value) ==> le(min, clamped(value, min, max)) && le(clamped(value, min, max), max),
        !is_nan(value) && le(min, value) && le(value, max) ==> clamped(value, min, max) == value,
        is_nan(value) ==> clamped(value, min, max) == value,
{
}

} // verus!
