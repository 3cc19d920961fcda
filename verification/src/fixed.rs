//! Fixed-point scalar arithmetic.
//!
//! A scalar is an `i64` counting units of one millionth: `SCALE` units stand
//! for the real number 1.0.  Products and quotients are rounded to the
//! nearest unit (ties away from zero) and saturate at the `i64` range, so
//! every operation is total and its result is pinned exactly by a spec
//! function.

use vstd::prelude::*;

verus! {

/// Number of fixed-point units in 1.0: six decimal places.
pub const SCALE: i64 = 1_000_000;

/// Half a unit of 1.0, used to round products and quotients to the nearest
/// fixed-point unit.
pub const HALF_SCALE: i64 = 500_000;

/// Comparison tolerance for epsilon-aware equality: 0.0001.
pub const EPSILON: i64 = 100;

/// Magnitude of a mathematical integer.
pub open spec fn abs_int(x: int) -> int {
    if x >= 0 {
        x
    } else {
        -x
    }
}

/// Sign of a mathematical integer: -1, 0 or 1.
pub open spec fn sign_int(x: int) -> int {
    if x > 0 {
        1
    } else if x < 0 {
        -1
    } else {
        0
    }
}

/// Saturation at the `i64` range.
pub open spec fn sat64(x: int) -> int {
    if x > i64::MAX as int {
        i64::MAX as int
    } else if x < i64::MIN as int {
        i64::MIN as int
    } else {
        x
    }
}

/// Saturating sum of two fixed-point scalars.
pub open spec fn spec_add(a: int, b: int) -> int {
    sat64(a + b)
}

/// Saturating difference of two fixed-point scalars.
pub open spec fn spec_sub(a: int, b: int) -> int {
    sat64(a - b)
}

/// Saturating negation of a fixed-point scalar.
pub open spec fn spec_neg(a: int) -> int {
    sat64(-a)
}

/// Product of two fixed-point scalars: the mathematical product of the two
/// magnitudes, rounded to the nearest unit (ties away from zero), signed,
/// then saturated.
pub open spec fn spec_mul(a: int, b: int) -> int {
    sat64(sign_int(a) * sign_int(b) * ((abs_int(a) * abs_int(b) + HALF_SCALE) / (SCALE as int)))
}

/// Quotient of two fixed-point scalars, rounded to the nearest unit (ties
/// away from zero) and saturated.  Unspecified when `b == 0`; the executable
/// division requires a nonzero divisor.
pub open spec fn spec_div(a: int, b: int) -> int {
    sat64(
        sign_int(a) * sign_int(b) * ((abs_int(a) * (SCALE as int) + abs_int(b) / 2) / abs_int(b)),
    )
}

/// Integer square root: the greatest `r` with `r * r <= n`.
pub open spec fn isqrt_spec(n: nat) -> nat
    decreases n,
{
    if n == 0 {
        0
    } else {
        let r = isqrt_spec((n - 1) as nat);
        if (r + 1) * (r + 1) <= n {
            r + 1
        } else {
            r
        }
    }
}

/// Square root of a nonnegative fixed-point scalar, rounded down to a unit.
pub open spec fn spec_sqrt(a: int) -> int {
    isqrt_spec((a * SCALE) as nat) as int
}

/// The integer square root is characterized by bracketing `n` between two
/// consecutive squares.
pub proof fn lemma_isqrt_bounds(n: nat)
    ensures
        isqrt_spec(n) * isqrt_spec(n) <= n,
        n < (isqrt_spec(n) as int + 1) * (isqrt_spec(n) as int + 1),
    decreases n,
{
    if n > 0 {
        lemma_isqrt_bounds((n - 1) as nat);
        let r = isqrt_spec((n - 1) as nat);
        let s = isqrt_spec(n);
        if (r as int + 1) * (r as int + 1) <= n {
            assert(s == r + 1);
            assert(s * s <= n);
            assert((r as int + 1) * (r as int + 1) < (r as int + 2) * (r as int + 2))
                by (nonlinear_arith);
            assert(n < (s as int + 1) * (s as int + 1));
        } else {
            assert(s == r);
            assert(s * s <= n);
            assert(n < (s as int + 1) * (s as int + 1));
        }
    } else {
        assert(isqrt_spec(n) == 0);
    }
}

/// Any `r` bracketing `n` between `r * r` and `(r + 1) * (r + 1)` is the
/// integer square root of `n`.
pub proof fn lemma_isqrt_unique(n: nat, r: nat)
    requires
        r * r <= n,
        n < (r as int + 1) * (r as int + 1),
    ensures
        r == isqrt_spec(n),
{
    let s = isqrt_spec(n);
    lemma_isqrt_bounds(n);
    if r < s {
        assert((r as int + 1) * (r as int + 1) <= s * s) by (nonlinear_arith)
            requires
                r as int + 1 <= s,
        ;
    }
    if s < r {
        assert((s as int + 1) * (s as int + 1) <= r * r) by (nonlinear_arith)
            requires
                s as int + 1 <= r,
        ;
    }
}

/// A product of a scalar with itself is never negative.
pub proof fn lemma_square_nonneg(a: int)
    ensures
        spec_mul(a, a) >= 0,
{
    let q = (abs_int(a) * abs_int(a) + HALF_SCALE) / (SCALE as int);
    assert(abs_int(a) * abs_int(a) >= 0) by (nonlinear_arith);
    vstd::arithmetic::div_mod::lemma_div_pos_is_pos(abs_int(a) * abs_int(a) + HALF_SCALE, SCALE as int);
    if a != 0 {
        assert(sign_int(a) * sign_int(a) == 1);
        assert(sign_int(a) * sign_int(a) * q == q) by (nonlinear_arith)
            requires
                sign_int(a) * sign_int(a) == 1,
        ;
    } else {
        assert(sign_int(a) * sign_int(a) * q == 0) by (nonlinear_arith)
            requires
                sign_int(a) == 0,
        ;
    }
}

/// Doubling a nonzero scalar keeps it nonzero: the fixed-point product of
/// 2.0 with any nonzero scalar has magnitude at least 2 units.
pub proof fn lemma_twice_nonzero(a: int)
    requires
        a != 0,
        i64::MIN <= a <= i64::MAX,
    ensures
        spec_mul(2 * (SCALE as int), a) != 0,
{
    let am = abs_int(a);
    let num = 2 * (SCALE as int) * am + HALF_SCALE;
    assert(2 * (SCALE as int) * am >= 2 * (SCALE as int)) by (nonlinear_arith)
        requires
            am >= 1,
    ;
    vstd::arithmetic::div_mod::lemma_div_is_ordered(
        2 * (SCALE as int) + HALF_SCALE,
        num,
        SCALE as int,
    );
    assert((2 * (SCALE as int) + HALF_SCALE) / (SCALE as int) == 2);
    let q = num / (SCALE as int);
    assert(sign_int(2 * (SCALE as int)) == 1);
    if a > 0 {
        assert(sign_int(2 * (SCALE as int)) * sign_int(a) * q == q) by (nonlinear_arith)
            requires
                sign_int(2 * (SCALE as int)) == 1,
                sign_int(a) == 1,
        ;
    } else {
        assert(sign_int(2 * (SCALE as int)) * sign_int(a) * q == -q) by (nonlinear_arith)
            requires
                sign_int(2 * (SCALE as int)) == 1,
                sign_int(a) == -1,
        ;
    }
}

/// Multiplying by zero gives zero.
pub proof fn lemma_mul_zero(a: int)
    ensures
        spec_mul(a, 0) == 0,
        spec_mul(0, a) == 0,
{
    let q = (abs_int(a) * abs_int(0) + HALF_SCALE) / (SCALE as int);
    assert(abs_int(a) * abs_int(0) == 0) by (nonlinear_arith)
        requires
            abs_int(0) == 0,
    ;
    assert(q == 0);
    assert(sign_int(a) * sign_int(0) * q == 0) by (nonlinear_arith)
        requires
            sign_int(0) == 0,
    ;
    let q2 = (abs_int(0) * abs_int(a) + HALF_SCALE) / (SCALE as int);
    assert(abs_int(0) * abs_int(a) == 0) by (nonlinear_arith)
        requires
            abs_int(0) == 0,
    ;
    assert(sign_int(0) * sign_int(a) * q2 == 0) by (nonlinear_arith)
        requires
            sign_int(0) == 0,
    ;
}

/// Multiplying by one is exact: scaling any representable scalar by
/// `SCALE` units gives the scalar back.
pub proof fn lemma_mul_one(a: int)
    requires
        i64::MIN <= a <= i64::MAX,
    ensures
        spec_mul(SCALE as int, a) == a,
        spec_mul(a, SCALE as int) == a,
{
    let q = ((SCALE as int) * abs_int(a) + HALF_SCALE) / (SCALE as int);
    assert(abs_int(SCALE as int) == SCALE as int);
    assert((SCALE as int) * abs_int(a) + HALF_SCALE == (SCALE as int) * abs_int(a)
        + HALF_SCALE);
    vstd::arithmetic::div_mod::lemma_div_multiples_vanish_fancy(
        abs_int(a),
        HALF_SCALE as int,
        SCALE as int,
    );
    assert(q == abs_int(a));
    assert(abs_int(SCALE as int) * abs_int(a) == (SCALE as int) * abs_int(a));
    if a > 0 {
        assert(sign_int(SCALE as int) * sign_int(a) * q == q) by (nonlinear_arith)
            requires
                sign_int(SCALE as int) == 1,
                sign_int(a) == 1,
        ;
    } else if a < 0 {
        assert(sign_int(SCALE as int) * sign_int(a) * q == -q) by (nonlinear_arith)
            requires
                sign_int(SCALE as int) == 1,
                sign_int(a) == -1,
        ;
    } else {
        assert(sign_int(SCALE as int) * sign_int(a) * q == 0) by (nonlinear_arith)
            requires
                sign_int(a) == 0,
        ;
    }
    let q2 = (abs_int(a) * (SCALE as int) + HALF_SCALE) / (SCALE as int);
    assert(abs_int(a) * (SCALE as int) == (SCALE as int) * abs_int(a)) by (nonlinear_arith);
    assert(q2 == abs_int(a));
    if a > 0 {
        assert(sign_int(a) * sign_int(SCALE as int) * q2 == q2) by (nonlinear_arith)
            requires
                sign_int(SCALE as int) == 1,
                sign_int(a) == 1,
        ;
    } else if a < 0 {
        assert(sign_int(a) * sign_int(SCALE as int) * q2 == -q2) by (nonlinear_arith)
            requires
                sign_int(SCALE as int) == 1,
                sign_int(a) == -1,
        ;
    } else {
        assert(sign_int(a) * sign_int(SCALE as int) * q2 == 0) by (nonlinear_arith)
            requires
                sign_int(a) == 0,
        ;
    }
}

/// A sum of two nonnegative scalars is never negative.
pub proof fn lemma_add_nonneg(a: int, b: int)
    requires
        a >= 0,
        b >= 0,
    ensures
        spec_add(a, b) >= 0,
{
}

/// Convert an integer count into the fixed-point scalar with that value,
/// saturating at the representable range.
pub fn fx(i: i64) -> (r: i64)
    ensures
        r == sat64(i * SCALE),
{
    proof {
        assert(-9223372036854775808i128 * 1000000i128 <= (i as i128) * 1000000i128 <= 9223372036854775807i128 * 1000000i128)
            by (nonlinear_arith)
            requires
                -9223372036854775808i128 <= (i as i128) <= 9223372036854775807i128,
        ;
    }
    let p: i128 = (i as i128) * (SCALE as i128);
    if p > i64::MAX as i128 {
        i64::MAX
    } else if p < i64::MIN as i128 {
        i64::MIN
    } else {
        p as i64
    }
}

/// Saturating sum of two fixed-point scalars.
pub fn fx_add(a: i64, b: i64) -> (r: i64)
    ensures
        r == spec_add(a as int, b as int),
{
    let s: i128 = (a as i128) + (b as i128);
    if s > i64::MAX as i128 {
        i64::MAX
    } else if s < i64::MIN as i128 {
        i64::MIN
    } else {
        s as i64
    }
}

/// Saturating difference of two fixed-point scalars.
pub fn fx_sub(a: i64, b: i64) -> (r: i64)
    ensures
        r == spec_sub(a as int, b as int),
{
    let s: i128 = (a as i128) - (b as i128);
    if s > i64::MAX as i128 {
        i64::MAX
    } else if s < i64::MIN as i128 {
        i64::MIN
    } else {
        s as i64
    }
}

/// Saturating negation of a fixed-point scalar.
pub fn fx_neg(a: i64) -> (r: i64)
    ensures
        r == spec_neg(a as int),
{
    if a == i64::MIN {
        i64::MAX
    } else {
        -a
    }
}

/// Magnitude of a fixed-point scalar, saturating at `i64::MAX`.
pub fn fx_abs(a: i64) -> (r: i64)
    ensures
        r == sat64(abs_int(a as int)),
{
    if a == i64::MIN {
        i64::MAX
    } else if a < 0 {
        -a
    } else {
        a
    }
}

/// Magnitude of a fixed-point scalar as an unsigned 128-bit integer.
fn abs_u128(a: i64) -> (r: u128)
    ensures
        r == abs_int(a as int),
{
    if a >= 0 {
        a as u128
    } else {
        (-(a as i128)) as u128
    }
}

/// Sign and clamp an unsigned magnitude back into the `i64` range.
fn sign_clamp(m: u128, negative: bool) -> (r: i64)
    ensures
        negative ==> r == sat64(-(m as int)),
        !negative ==> r == sat64(m as int),
{
    if negative {
        if m >= 9223372036854775808u128 {
            i64::MIN
        } else {
            (-(m as i128)) as i64
        }
    } else {
        if m >= 9223372036854775807u128 {
            i64::MAX
        } else {
            m as i64
        }
    }
}

/// Product of two fixed-point scalars, rounded to the nearest unit and
/// saturated.
pub fn fx_mul(a: i64, b: i64) -> (r: i64)
    ensures
        r == spec_mul(a as int, b as int),
{
    let am: u128 = abs_u128(a);
    let bm: u128 = abs_u128(b);
    proof {
        assert(am * bm <= 9223372036854775808u128 * 9223372036854775808u128) by (nonlinear_arith)
            requires
                am <= 9223372036854775808u128,
                bm <= 9223372036854775808u128,
        ;
    }
    let m: u128 = (am * bm + HALF_SCALE as u128) / (SCALE as u128);
    let negative: bool = (a < 0) != (b < 0);
    let r: i64 = sign_clamp(m, negative);
    proof {
        if a == 0 || b == 0 {
            assert(am * bm == 0) by (nonlinear_arith)
                requires
                    am == 0 || bm == 0,
            ;
        }
        lemma_signed_magnitude(a as int, b as int, m as int, negative);
    }
    r
}

/// Quotient of two fixed-point scalars, rounded to the nearest unit and
/// saturated.
pub fn fx_div(a: i64, b: i64) -> (r: i64)
    requires
        b != 0,
    ensures
        r == spec_div(a as int, b as int),
{
    let am: u128 = abs_u128(a);
    let bm: u128 = abs_u128(b);
    proof {
        assert(am * 1000000u128 <= 9223372036854775808u128 * 1000000u128) by (nonlinear_arith)
            requires
                am <= 9223372036854775808u128,
        ;
    }
    let m: u128 = (am * (SCALE as u128) + bm / 2) / bm;
    let negative: bool = (a < 0) != (b < 0);
    let r: i64 = sign_clamp(m, negative);
    proof {
        if a == 0 {
            vstd::arithmetic::div_mod::lemma_basic_div((bm / 2) as int, bm as int);
        }
        lemma_signed_magnitude(a as int, b as int, m as int, negative);
    }
    r
}

/// Relate a magnitude-with-sign-flag encoding to the product of the two
/// operands' signs.
proof fn lemma_signed_magnitude(a: int, b: int, m: int, negative: bool)
    requires
        m >= 0,
        negative == ((a < 0) != (b < 0)),
        a == 0 || b == 0 ==> m == 0,
    ensures
        negative ==> sat64(-m) == sat64(sign_int(a) * sign_int(b) * m),
        !negative ==> sat64(m) == sat64(sign_int(a) * sign_int(b) * m),
{
    if a == 0 || b == 0 {
        assert(sign_int(a) * sign_int(b) * m == 0) by (nonlinear_arith)
            requires
                sign_int(a) == 0 || sign_int(b) == 0,
        ;
    } else if negative {
        assert(sign_int(a) * sign_int(b) == -1);
        assert(sign_int(a) * sign_int(b) * m == -m) by (nonlinear_arith)
            requires
                sign_int(a) * sign_int(b) == -1,
        ;
    } else {
        assert(sign_int(a) * sign_int(b) == 1);
        assert(sign_int(a) * sign_int(b) * m == m) by (nonlinear_arith)
            requires
                sign_int(a) * sign_int(b) == 1,
        ;
    }
}

/// Square root of a nonnegative fixed-point scalar.
pub fn fx_sqrt(a: i64) -> (r: i64)
    requires
        a >= 0,
    ensures
        r == spec_sqrt(a as int),
        r >= 0,
{
    proof {
        assert((a as u128) * 1000000u128 < 9223372036854775808u128 * 1000000u128)
            by (nonlinear_arith)
            requires
                (a as u128) < 9223372036854775808u128,
        ;
    }
    let n: u128 = (a as u128) * (SCALE as u128);
    let mut lo: u128 = 0;
    let mut hi: u128 = 4294967296u128 * 1024u128;
    proof {
        assert(hi * hi > n) by (nonlinear_arith)
            requires
                hi == 4294967296u128 * 1024u128,
                n < 9223372036854775808u128 * 1000000u128,
        ;
    }
    while lo + 1 < hi
        invariant
            lo < hi,
            lo * lo <= n,
            n < hi * hi,
            hi <= 4294967296u128 * 1024u128,
        decreases hi - lo,
    {
        let mid: u128 = lo + (hi - lo) / 2;
        proof {
            assert(mid * mid <= 4398046511104u128 * 4398046511104u128) by (nonlinear_arith)
                requires
                    mid <= 4398046511104u128,
            ;
        }
        if mid * mid <= n {
            lo = mid;
        } else {
            hi = mid;
        }
    }
    proof {
        lemma_isqrt_unique(n as nat, lo as nat);
    }
    lo as i64
}

/// A fixed-point base raised to a whole-number power by repeated
/// fixed-point multiplication; the zeroth power is 1.0.
pub open spec fn spec_powi(b: int, n: nat) -> int
    decreases n,
{
    if n == 0 {
        SCALE as int
    } else {
        spec_mul(b, spec_powi(b, (n - 1) as nat))
    }
}

/// Raise a fixed-point base to a whole-number power.
pub fn fx_powi(b: i64, n: u64) -> (r: i64)
    ensures
        r == spec_powi(b as int, n as nat),
{
    let mut result: i64 = SCALE;
    let mut i: u64 = 0;
    while i < n
        invariant
            i <= n,
            result == spec_powi(b as int, i as nat),
        decreases n - i,
    {
        result = fx_mul(b, result);
        i = i + 1;
    }
    result
}

/// How many whole units the range-shift used for floor and remainder
/// computations spans.
pub const FLOOR_SHIFT_COUNT: i128 = 10_000_000_000_000;

/// A multiple of `SCALE` large enough to shift any scalar nonnegative.
pub const FLOOR_SHIFT: i128 = 10_000_000_000_000 * 1_000_000;

/// The number of whole units below a fixed-point scalar: its floor as a
/// plain integer count.
pub fn fx_floor_units(a: i64) -> (r: i64)
    ensures
        r == (a as int) / (SCALE as int),
{
    let n: i128 = (a as i128) + FLOOR_SHIFT;
    let q: u128 = (n as u128) / (SCALE as u128);
    proof {
        vstd::arithmetic::div_mod::lemma_hoist_over_denominator(
            a as int,
            FLOOR_SHIFT_COUNT as int,
            SCALE as nat,
        );
    }
    ((q as i128) - FLOOR_SHIFT_COUNT) as i64
}

/// The fixed-point fractional part of a scalar: its distance above the
/// whole unit below it, in `[0, SCALE)`.
pub fn fx_rem_units(a: i64) -> (r: i64)
    ensures
        r == (a as int) % (SCALE as int),
{
    let n: i128 = (a as i128) + FLOOR_SHIFT;
    let m: u128 = (n as u128) % (SCALE as u128);
    proof {
        vstd::arithmetic::div_mod::lemma_mod_multiples_vanish(
            FLOOR_SHIFT_COUNT as int,
            a as int,
            SCALE as int,
        );
    }
    m as i64
}

/// The parity of an integer count, normalized into `{0, 1}` for negative
/// counts as well.
pub fn parity2(a: i64) -> (r: i64)
    ensures
        r == (a as int) % 2,
{
    let n: i128 = (a as i128) + 9_223_372_036_854_775_808i128;
    let m: u128 = (n as u128) % 2;
    proof {
        vstd::arithmetic::div_mod::lemma_mod_multiples_vanish(
            4_611_686_018_427_387_904int,
            a as int,
            2int,
        );
    }
    m as i64
}

/// The circle constant, in fixed-point units.
pub const FX_PI: i64 = 3_141_593;

/// Twice the circle constant, in fixed-point units.
pub const FX_TWO_PI: i64 = 6_283_185;

/// Half the circle constant, in fixed-point units.
pub const FX_HALF_PI: i64 = 1_570_796;

/// A multiple of `FX_TWO_PI` large enough to shift any angle nonnegative
/// before range reduction.
pub const REDUCE_SHIFT: i128 = 2_000_000_000_000 * 6_283_185;

/// An angle reduced into one turn around the circle, centered at zero:
/// the result lies in `[-FX_PI, FX_PI)`.
pub open spec fn spec_reduce_angle(x: int) -> int {
    (x + FX_PI + REDUCE_SHIFT) % (FX_TWO_PI as int) - FX_PI
}

/// A reduced angle folded into the first and fourth quadrants, where the
/// sine polynomial converges: the result lies in `[-FX_HALF_PI, FX_HALF_PI]`
/// and has the same sine as the input.
pub open spec fn spec_fold_angle(a: int) -> int {
    if a > FX_HALF_PI {
        FX_PI - a
    } else if a < -(FX_HALF_PI as int) {
        -(FX_PI as int) - a
    } else {
        a
    }
}

/// The odd Maclaurin polynomial for the sine of a folded angle, with terms
/// through the ninth power.
pub open spec fn spec_sin_poly(a: int) -> int {
    let a2 = spec_mul(a, a);
    let a3 = spec_mul(a2, a);
    let a5 = spec_mul(a3, a2);
    let a7 = spec_mul(a5, a2);
    let a9 = spec_mul(a7, a2);
    spec_add(
        spec_sub(spec_add(spec_sub(a, spec_div(a3, 6_000_000)), spec_div(a5, 120_000_000)), spec_div(a7, 5_040_000_000)),
        spec_div(a9, 362_880_000_000),
    )
}

/// The sine of an angle given in fixed-point radians.
pub open spec fn spec_sin(x: int) -> int {
    spec_sin_poly(spec_fold_angle(spec_reduce_angle(x)))
}

/// The cosine of an angle given in fixed-point radians: the sine a quarter
/// turn later.
pub open spec fn spec_cos(x: int) -> int {
    spec_sin(spec_add(x, FX_HALF_PI as int))
}

/// The tangent of an angle: sine over cosine, saturating where the cosine
/// rounds to zero.
pub open spec fn spec_tan(x: int) -> int {
    if spec_cos(x) == 0 {
        i64::MAX as int
    } else {
        spec_div(spec_sin(x), spec_cos(x))
    }
}

/// Sine of an angle given in fixed-point radians.
pub fn fx_sin(x: i64) -> (r: i64)
    ensures
        r == spec_sin(x as int),
{
    let shifted: i128 = (x as i128) + (FX_PI as i128) + REDUCE_SHIFT;
    let reduced: i128 = ((shifted as u128) % (FX_TWO_PI as u128)) as i128 - (FX_PI as i128);
    let a0: i64 = reduced as i64;
    let a: i64 = if a0 > FX_HALF_PI {
        FX_PI - a0
    } else if a0 < -FX_HALF_PI {
        -FX_PI - a0
    } else {
        a0
    };
    let a2: i64 = fx_mul(a, a);
    let a3: i64 = fx_mul(a2, a);
    let a5: i64 = fx_mul(a3, a2);
    let a7: i64 = fx_mul(a5, a2);
    let a9: i64 = fx_mul(a7, a2);
    fx_add(
        fx_sub(fx_add(fx_sub(a, fx_div(a3, 6_000_000)), fx_div(a5, 120_000_000)), fx_div(a7, 5_040_000_000)),
        fx_div(a9, 362_880_000_000),
    )
}

/// Cosine of an angle given in fixed-point radians.
pub fn fx_cos(x: i64) -> (r: i64)
    ensures
        r == spec_cos(x as int),
{
    fx_sin(fx_add(x, FX_HALF_PI))
}

/// Tangent of an angle given in fixed-point radians, saturating where the
/// cosine rounds to zero.
pub fn fx_tan(x: i64) -> (r: i64)
    ensures
        r == spec_tan(x as int),
{
    let c: i64 = fx_cos(x);
    if c == 0 {
        i64::MAX
    } else {
        fx_div(fx_sin(x), c)
    }
}

} // verus!
