//! Fixed-point scalars.
//!
//! Every quantity in the tracer is a multiple of one nano (10^-9), carried in
//! an `i64`. Arithmetic saturates at the `i64` range instead of wrapping, and
//! division by zero saturates by the sign of the dividend, so every operation
//! is total and has an exact mathematical specification.

use vstd::prelude::*;

verus! {

/// Number of raw units in 1.0: the scalar `x` represents `x.raw / SCALE`.
pub const SCALE: i64 = 1_000_000_000;

/// A fixed-point scalar: `raw` nanos.
#[derive(Clone, Copy, Debug, PartialEq, Eq, Structural)]
pub struct Fx {
    pub raw: i64,
}

impl View for Fx {
    type V = int;

    open spec fn view(&self) -> int {
        self.raw as int
    }
}

/// Saturate an unbounded integer into the `i64` range.
pub open spec fn fx_clip(x: int) -> int {
    if x > i64::MAX {
        i64::MAX as int
    } else if x < i64::MIN {
        i64::MIN as int
    } else {
        x
    }
}

pub open spec fn fx_abs(x: int) -> int {
    if x >= 0 {
        x
    } else {
        -x
    }
}

/// Division truncating toward zero (the spec-level `/` rounds toward
/// negative infinity for a positive divisor).
pub open spec fn fx_tdiv(a: int, b: int) -> int
    recommends
        b != 0,
{
    if (a >= 0) == (b >= 0) {
        fx_abs(a) / fx_abs(b)
    } else {
        -(fx_abs(a) / fx_abs(b))
    }
}

pub open spec fn fx_add(a: int, b: int) -> int {
    fx_clip(a + b)
}

pub open spec fn fx_sub(a: int, b: int) -> int {
    fx_clip(a - b)
}

pub open spec fn fx_neg(a: int) -> int {
    fx_clip(-a)
}

pub open spec fn fx_mul(a: int, b: int) -> int {
    fx_clip(fx_tdiv(a * b, SCALE as int))
}

/// Division of scalars; a zero divisor saturates by the sign of the dividend,
/// mirroring the infinities that a floating-point tracer would produce.
pub open spec fn fx_div(a: int, b: int) -> int {
    if b == 0 {
        if a > 0 {
            i64::MAX as int
        } else if a < 0 {
            i64::MIN as int
        } else {
            0
        }
    } else {
        fx_clip(fx_tdiv(a * SCALE, b))
    }
}

/// `r` is the integer square root of `n`.
pub open spec fn is_isqrt(n: int, r: int) -> bool {
    0 <= r && r * r <= n && n < (r + 1) * (r + 1)
}

/// Square root of a scalar with `a` raw units; negative inputs map to zero.
pub open spec fn fx_sqrt(a: int) -> int {
    if a <= 0 {
        0
    } else {
        choose|r: int| #[trigger] is_isqrt(a * SCALE, r)
    }
}

/// Floor of the scalar with `a` raw units, as an integer (not raw units).
pub open spec fn fx_floor(a: int) -> int {
    a / (SCALE as int)
}

pub open spec fn fx_min(a: int, b: int) -> int {
    if a <= b {
        a
    } else {
        b
    }
}

pub open spec fn fx_max(a: int, b: int) -> int {
    if a >= b {
        a
    } else {
        b
    }
}

/// `a` to the integer power `n`, in raw units.
pub open spec fn fx_powi(a: int, n: nat) -> int
    decreases n,
{
    if n == 0 {
        SCALE as int
    } else {
        fx_mul(a, fx_powi(a, (n - 1) as nat))
    }
}

proof fn lemma_isqrt_unique(n: int, r1: int, r2: int)
    requires
        is_isqrt(n, r1),
        is_isqrt(n, r2),
    ensures
        r1 == r2,
{
    if r1 < r2 {
        assert(r2 * r2 >= (r1 + 1) * (r1 + 1)) by (nonlinear_arith)
            requires
                0 <= r1,
                r1 + 1 <= r2,
        ;
    }
    if r2 < r1 {
        assert(r1 * r1 >= (r2 + 1) * (r2 + 1)) by (nonlinear_arith)
            requires
                0 <= r2,
                r2 + 1 <= r1,
        ;
    }
}

/// Magnitude of an `i64` as a `u128`.
fn abs_u128(x: i64) -> (r: u128)
    ensures
        r == fx_abs(x as int),
{
    if x >= 0 {
        x as u128
    } else {
        let wide: i128 = -(x as i128);
        wide as u128
    }
}

/// Saturate a magnitude-and-sign result back into an `i64`.
fn clip_signed(neg: bool, q: u128) -> (r: i64)
    ensures
        r as int == fx_clip(if neg { -(q as int) } else { q as int }),
{
    if neg {
        if q >= 9223372036854775808u128 {
            i64::MIN
        } else {
            -(q as i64)
        }
    } else {
        if q > i64::MAX as u128 {
            i64::MAX
        } else {
            q as i64
        }
    }
}

impl Fx {
    /// The scalar with exactly `raw` nano units.
    pub fn from_raw(raw: i64) -> (r: Fx)
        ensures
            r@ == raw as int,
    {
        Fx { raw }
    }

    /// The integer `v` as a scalar, saturating at the representable range.
    pub fn from_int(v: i64) -> (r: Fx)
        ensures
            r@ == fx_clip(v * SCALE),
    {
        assert((v as i128) * (SCALE as i128) == v * SCALE && fx_abs(v * SCALE) <= 0x8000_0000_0000_0000i128
            * (SCALE as i128)) by (nonlinear_arith)
            requires
                i64::MIN <= v <= i64::MAX,
        ;
        let wide: i128 = (v as i128) * (SCALE as i128);
        if wide > i64::MAX as i128 {
            Fx { raw: i64::MAX }
        } else if wide < i64::MIN as i128 {
            Fx { raw: i64::MIN }
        } else {
            Fx { raw: wide as i64 }
        }
    }

    /// The scalar `v / 1_000_000`, exactly.
    pub fn from_micro(v: i64) -> (r: Fx)
        ensures
            r@ == fx_clip(v * 1000),
    {
        assert((v as i128) * 1000 == v * 1000 && fx_abs(v * 1000) <= 0x8000_0000_0000_0000i128
            * 1000) by (nonlinear_arith)
            requires
                i64::MIN <= v <= i64::MAX,
        ;
        let wide: i128 = (v as i128) * 1000;
        if wide > i64::MAX as i128 {
            Fx { raw: i64::MAX }
        } else if wide < i64::MIN as i128 {
            Fx { raw: i64::MIN }
        } else {
            Fx { raw: wide as i64 }
        }
    }

    pub fn zero() -> (r: Fx)
        ensures
            r@ == 0,
    {
        Fx { raw: 0 }
    }

    pub fn one() -> (r: Fx)
        ensures
            r@ == SCALE as int,
    {
        Fx { raw: SCALE }
    }

    pub fn abs(self) -> (r: Fx)
        ensures
            r@ == fx_clip(fx_abs(self@)),
    {
        if self.raw == i64::MIN {
            Fx { raw: i64::MAX }
        } else if self.raw < 0 {
            Fx { raw: -self.raw }
        } else {
            self
        }
    }

    pub fn floor(self) -> (r: i64)
        ensures
            r as int == fx_floor(self@),
            -9_223_372_037 <= r <= 9_223_372_036,
    {
        if self.raw >= 0 {
            proof {
                vstd::arithmetic::div_mod::lemma_div_pos_is_pos(self@, SCALE as int);
                vstd::arithmetic::div_mod::lemma_div_is_ordered(
                    self@,
                    i64::MAX as int,
                    SCALE as int,
                );
            }
            self.raw / SCALE
        } else {
            let mag: i128 = -(self.raw as i128);
            let q: i128 = mag / (SCALE as i128);
            let rem: i128 = mag % (SCALE as i128);
            let down: i128 = if rem == 0 {
                -q
            } else {
                -q - 1
            };
            assert(down == self@ / (SCALE as int)) by {
                let s = SCALE as int;
                let a = self@;
                vstd::arithmetic::div_mod::lemma_fundamental_div_mod(-a, s);
                assert(-a == s * ((-a) / s) + ((-a) % s));
                if (-a) % s == 0 {
                    assert(a == (-((-a) / s)) * s + 0) by (nonlinear_arith)
                        requires
                            -a == s * ((-a) / s),
                    ;
                    vstd::arithmetic::div_mod::lemma_fundamental_div_mod_converse(
                        a,
                        s,
                        -((-a) / s),
                        0,
                    );
                } else {
                    assert(a == (-((-a) / s) - 1) * s + (s - (-a) % s)) by (nonlinear_arith)
                        requires
                            -a == s * ((-a) / s) + ((-a) % s),
                    ;
                    vstd::arithmetic::div_mod::lemma_fundamental_div_mod_converse(
                        a,
                        s,
                        -((-a) / s) - 1,
                        s - (-a) % s,
                    );
                }
            };
            proof {
                vstd::arithmetic::div_mod::lemma_div_pos_is_pos(-self@, SCALE as int);
                vstd::arithmetic::div_mod::lemma_div_is_ordered(
                    -self@,
                    0x8000_0000_0000_0000,
                    SCALE as int,
                );
            }
            down as i64
        }
    }

    pub fn add(self, other: Fx) -> (r: Fx)
        ensures
            r@ == fx_add(self@, other@),
    {
        let wide: i128 = self.raw as i128 + other.raw as i128;
        if wide > i64::MAX as i128 {
            Fx { raw: i64::MAX }
        } else if wide < i64::MIN as i128 {
            Fx { raw: i64::MIN }
        } else {
            Fx { raw: wide as i64 }
        }
    }

    pub fn sub(self, other: Fx) -> (r: Fx)
        ensures
            r@ == fx_sub(self@, other@),
    {
        let wide: i128 = self.raw as i128 - other.raw as i128;
        if wide > i64::MAX as i128 {
            Fx { raw: i64::MAX }
        } else if wide < i64::MIN as i128 {
            Fx { raw: i64::MIN }
        } else {
            Fx { raw: wide as i64 }
        }
    }

    pub fn neg(self) -> (r: Fx)
        ensures
            r@ == fx_neg(self@),
    {
        if self.raw == i64::MIN {
            Fx { raw: i64::MAX }
        } else {
            Fx { raw: -self.raw }
        }
    }

    pub fn mul(self, other: Fx) -> (r: Fx)
        ensures
            r@ == fx_mul(self@, other@),
    {
        let sa: i64 = self.raw;
        let sb: i64 = other.raw;
        let neg = (sa < 0) != (sb < 0);
        let ua = abs_u128(sa);
        let ub = abs_u128(sb);
        assert(ua * ub <= 0x8000_0000_0000_0000u128 * 0x8000_0000_0000_0000u128)
            by (nonlinear_arith)
            requires
                ua <= 0x8000_0000_0000_0000u128,
                ub <= 0x8000_0000_0000_0000u128,
        ;
        let p: u128 = ua * ub;
        let q: u128 = p / (SCALE as u128);
        proof {
            assert(ua * ub == fx_abs((sa as int) * (sb as int)) && ((sa as int) * (sb as int) >= 0
                <==> !neg || p == 0)) by (nonlinear_arith)
                requires
                    ua == fx_abs(sa as int),
                    ub == fx_abs(sb as int),
                    neg == ((sa < 0) != (sb < 0)),
                    p == ua * ub,
            ;
        }
        let r = clip_signed(neg, q);
        proof {
            let prod = self@ * other@;
            assert(q == fx_abs(prod) / (SCALE as int));
            if prod == 0 {
                vstd::arithmetic::div_mod::lemma_div_of0(SCALE as int);
                assert(q == 0);
                assert(fx_tdiv(prod, SCALE as int) == 0);
            } else if prod > 0 {
                assert(!neg);
                assert(fx_tdiv(prod, SCALE as int) == q);
            } else {
                assert(neg);
                assert(fx_tdiv(prod, SCALE as int) == -(q as int));
            }
        }
        Fx { raw: r }
    }

    pub fn div(self, other: Fx) -> (r: Fx)
        ensures
            r@ == fx_div(self@, other@),
    {
        if other.raw == 0 {
            if self.raw > 0 {
                Fx { raw: i64::MAX }
            } else if self.raw < 0 {
                Fx { raw: i64::MIN }
            } else {
                Fx { raw: 0 }
            }
        } else {
            let sa: i64 = self.raw;
            let sb: i64 = other.raw;
            let neg = (sa < 0) != (sb < 0);
            let ua = abs_u128(sa);
            let ub = abs_u128(sb);
            assert(ua * (SCALE as u128) <= 0x8000_0000_0000_0000u128 * (SCALE as u128))
                by (nonlinear_arith)
                requires
                    ua <= 0x8000_0000_0000_0000u128,
            ;
            let p: u128 = ua * (SCALE as u128);
            let q: u128 = p / ub;
            let r = clip_signed(neg, q);
            proof {
                assert(ua * (SCALE as u128) == fx_abs((sa as int) * SCALE) && ((sa as int) * SCALE
                    > 0 <==> sa > 0) && ((sa as int) * SCALE < 0 <==> sa < 0)) by (nonlinear_arith)
                    requires
                        ua == fx_abs(sa as int),
                ;
                let num = self@ * SCALE;
                assert(q == fx_abs(num) / fx_abs(other@));
                if num == 0 {
                    vstd::arithmetic::div_mod::lemma_div_of0(fx_abs(other@));
                    assert(q == 0);
                    assert(fx_tdiv(num, other@) == 0);
                } else if fx_tdiv(num, other@) >= 0 {
                    assert(fx_tdiv(num, other@) == q);
                    assert(!neg || q == 0);
                } else {
                    assert(fx_tdiv(num, other@) == -(q as int));
                    assert(neg);
                }
            }
            Fx { raw: r }
        }
    }

    /// Square root; negative inputs yield zero.
    pub fn sqrt(self) -> (r: Fx)
        ensures
            r@ == fx_sqrt(self@),
    {
        if self.raw <= 0 {
            Fx { raw: 0 }
        } else {
            let a: i64 = self.raw;
            let au: u128 = a as u128;
            assert(au * (SCALE as u128) == (a as int) * SCALE && au * (SCALE as u128)
                < 0x8000_0000_0000_0000u128 * (SCALE as u128)) by (nonlinear_arith)
                requires
                    au == a as int,
                    au < 0x8000_0000_0000_0000u128,
            ;
            let n: u128 = au * (SCALE as u128);
            let mut lo: u128 = 0;
            let mut hi: u128 = 140737488355328u128;  // 2^47, whose square exceeds any n here
            assert(hi * hi > n) by (nonlinear_arith)
                requires
                    n < 0x8000_0000_0000_0000u128 * (SCALE as u128),
                    hi == 140737488355328u128,
            ;
            while lo + 1 < hi
                invariant
                    lo < hi,
                    hi <= 140737488355328u128,
                    lo * lo <= n,
                    n < hi * hi,
                decreases hi - lo,
            {
                let mid: u128 = lo + (hi - lo) / 2;
                assert(lo < mid < hi);
                assert(mid * mid < 0x1_0000_0000_0000_0000_0000_0000u128) by (nonlinear_arith)
                    requires
                        mid < 140737488355328u128,
                ;
                if mid * mid <= n {
                    lo = mid;
                } else {
                    hi = mid;
                }
            }
            proof {
                assert(is_isqrt(n as int, lo as int));
                let c = choose|r: int| #[trigger] is_isqrt(self@ * SCALE, r);
                assert(is_isqrt(self@ * SCALE, lo as int));
                lemma_isqrt_unique(self@ * SCALE, c, lo as int);
            }
            Fx { raw: lo as i64 }
        }
    }

    /// `self` raised to the `n`-th power.
    pub fn powi(self, n: u32) -> (r: Fx)
        ensures
            r@ == fx_powi(self@, n as nat),
    {
        let mut acc = Fx { raw: SCALE };
        let mut i: u32 = 0;
        while i < n
            invariant
                i <= n,
                acc@ == fx_powi(self@, i as nat),
            decreases n - i,
        {
            proof {
                lemma_powi_step(self@, i as nat);
            }
            acc = self.mul(acc);
            i = i + 1;
        }
        acc
    }

    pub fn min(self, other: Fx) -> (r: Fx)
        ensures
            r@ == fx_min(self@, other@),
    {
        if self.raw <= other.raw {
            self
        } else {
            other
        }
    }

    pub fn max(self, other: Fx) -> (r: Fx)
        ensures
            r@ == fx_max(self@, other@),
    {
        if self.raw >= other.raw {
            self
        } else {
            other
        }
    }
}

/// Multiplying by one and dividing by one are the identity on any scalar.
pub proof fn lemma_fx_identity(a: int)
    requires
        i64::MIN <= a <= i64::MAX,
    ensures
        fx_mul(a, SCALE as int) == a,
        fx_mul(SCALE as int, a) == a,
        fx_div(a, SCALE as int) == a,
        fx_mul(a, 0) == 0,
        fx_mul(0, a) == 0,
{
    let s = SCALE as int;
    vstd::arithmetic::div_mod::lemma_div_of0(s);
    assert(a * s == s * a) by (nonlinear_arith);
    assert(a * 0 == 0) by (nonlinear_arith);
    assert(0 * a == 0) by (nonlinear_arith);
    if a >= 0 {
        vstd::arithmetic::div_mod::lemma_div_multiples_vanish(a, s);
        assert((s * a) / s == a);
        assert(fx_tdiv(a * s, s) == a);
    } else {
        vstd::arithmetic::div_mod::lemma_div_multiples_vanish(-a, s);
        assert((s * (-a)) / s == -a);
        assert(fx_abs(a * s) == s * (-a)) by (nonlinear_arith)
            requires
                a < 0,
                s > 0,
        ;
        assert(fx_tdiv(a * s, s) == a);
    }
}

/// Multiplying by zero gives zero, for any scalar at all.
pub proof fn lemma_fx_zero(a: int)
    ensures
        fx_mul(0, a) == 0,
        fx_mul(a, 0) == 0,
{
    vstd::arithmetic::div_mod::lemma_div_of0(SCALE as int);
    assert(0 * a == 0) by (nonlinear_arith);
    assert(a * 0 == 0) by (nonlinear_arith);
}

/// The zero and one identities, quantified for symbolic matrix algebra.
pub proof fn lemma_fx_identities()
    ensures
        forall|a: int| #[trigger] fx_mul(0, a) == 0,
        forall|a: int| #[trigger] fx_mul(a, 0) == 0,
        forall|a: int|
            i64::MIN <= a <= i64::MAX ==> #[trigger] fx_mul(a, SCALE as int) == a,
        forall|a: int|
            i64::MIN <= a <= i64::MAX ==> #[trigger] fx_mul(SCALE as int, a) == a,
        forall|a: int|
            i64::MIN <= a <= i64::MAX ==> #[trigger] fx_div(a, SCALE as int) == a,
{
    assert forall|a: int| #[trigger] fx_mul(0, a) == 0 by {
        lemma_fx_zero(a);
    }
    assert forall|a: int| #[trigger] fx_mul(a, 0) == 0 by {
        lemma_fx_zero(a);
    }
    assert forall|a: int| i64::MIN <= a <= i64::MAX implies #[trigger] fx_mul(a, SCALE as int)
        == a by {
        lemma_fx_identity(a);
    }
    assert forall|a: int| i64::MIN <= a <= i64::MAX implies #[trigger] fx_mul(SCALE as int, a)
        == a by {
        lemma_fx_identity(a);
    }
    assert forall|a: int| i64::MIN <= a <= i64::MAX implies #[trigger] fx_div(a, SCALE as int)
        == a by {
        lemma_fx_identity(a);
    }
}

proof fn lemma_powi_step(a: int, n: nat)
    ensures
        fx_powi(a, n + 1) == fx_mul(a, fx_powi(a, n)),
{
}

/// A scalar built from `v` raw units (callers keep `v` in the `i64` range).
pub open spec fn fx_new(v: int) -> Fx {
    Fx { raw: v as i64 }
}

/// Parity of an integer (of either sign).
pub open spec fn fx_even(s: int) -> bool {
    if s >= 0 {
        s % 2 == 0
    } else {
        (-s) % 2 == 0
    }
}

/// Parity test on an `i64`.
pub fn is_even(v: i64) -> (r: bool)
    ensures
        r == fx_even(v as int),
{
    if v >= 0 {
        v % 2 == 0
    } else {
        let m: i128 = -(v as i128);
        m % 2 == 0
    }
}

/// One half, in raw units.
pub const HALF: i64 = 500_000_000;

/// The circle constants, rounded to the nearest raw unit.
pub const PI: i64 = 3_141_592_654;

pub const TWO_PI: i64 = 6_283_185_307;

pub const HALF_PI: i64 = 1_570_796_327;

/// Odd Taylor polynomial for the sine of `d` raw units, `|d|` at most a
/// quarter turn.
pub open spec fn fx_sin_poly(d: int) -> int {
    let d2 = fx_mul(d, d);
    fx_mul(
        d,
        fx_sub(
            SCALE as int,
            fx_mul(
                d2,
                fx_sub(166_666_667, fx_mul(d2, fx_sub(8_333_333, fx_mul(d2, fx_sub(198_413, fx_mul(d2, 2_756)))))),
            ),
        ),
    )
}

/// Even Taylor polynomial for the cosine of `d` raw units, `|d|` at most a
/// quarter turn.
pub open spec fn fx_cos_poly(d: int) -> int {
    let d2 = fx_mul(d, d);
    fx_sub(
        SCALE as int,
        fx_mul(
            d2,
            fx_sub(
                500_000_000,
                fx_mul(
                    d2,
                    fx_sub(41_666_667, fx_mul(d2, fx_sub(1_388_889, fx_mul(d2, fx_sub(24_802, fx_mul(d2, 276)))))),
                ),
            ),
        ),
    )
}

/// Nearest multiple of `m` raw units below `x + m/2`: the rounding step of
/// the trigonometric range reduction.
pub open spec fn fx_round_div(x: int, m: int) -> int {
    fx_floor(fx_add(fx_div(x, m), HALF as int))
}

/// The angle `x` less `k` whole multiples of `m` raw units.
pub open spec fn fx_reduce(x: int, k: int, m: int) -> int {
    fx_sub(x, fx_mul(fx_clip(k * SCALE), m))
}

/// Sine of `x` raw units (radians): reduce modulo a turn, pick the quadrant,
/// and evaluate the quarter-turn polynomial.
pub open spec fn fx_sin(x: int) -> int {
    let r = fx_reduce(x, fx_round_div(x, TWO_PI as int), TWO_PI as int);
    let k2 = fx_round_div(r, HALF_PI as int);
    let d = fx_reduce(r, k2, HALF_PI as int);
    if k2 == 0 {
        fx_sin_poly(d)
    } else if k2 == 1 {
        fx_cos_poly(d)
    } else if k2 == -1 {
        fx_neg(fx_cos_poly(d))
    } else {
        fx_neg(fx_sin_poly(d))
    }
}

/// Cosine of `x` raw units (radians).
pub open spec fn fx_cos(x: int) -> int {
    let r = fx_reduce(x, fx_round_div(x, TWO_PI as int), TWO_PI as int);
    let k2 = fx_round_div(r, HALF_PI as int);
    let d = fx_reduce(r, k2, HALF_PI as int);
    if k2 == 0 {
        fx_cos_poly(d)
    } else if k2 == 1 {
        fx_neg(fx_sin_poly(d))
    } else if k2 == -1 {
        fx_sin_poly(d)
    } else {
        fx_neg(fx_cos_poly(d))
    }
}

pub open spec fn fx_tan(x: int) -> int {
    fx_div(fx_sin(x), fx_cos(x))
}

fn sin_poly(d: Fx) -> (r: Fx)
    ensures
        r@ == fx_sin_poly(d@),
{
    let d2 = d.mul(d);
    d.mul(
        Fx::from_raw(SCALE).sub(
            d2.mul(
                Fx::from_raw(166_666_667).sub(
                    d2.mul(
                        Fx::from_raw(8_333_333).sub(
                            d2.mul(Fx::from_raw(198_413).sub(d2.mul(Fx::from_raw(2_756)))),
                        ),
                    ),
                ),
            ),
        ),
    )
}

fn cos_poly(d: Fx) -> (r: Fx)
    ensures
        r@ == fx_cos_poly(d@),
{
    let d2 = d.mul(d);
    Fx::from_raw(SCALE).sub(
        d2.mul(
            Fx::from_raw(500_000_000).sub(
                d2.mul(
                    Fx::from_raw(41_666_667).sub(
                        d2.mul(
                            Fx::from_raw(1_388_889).sub(
                                d2.mul(Fx::from_raw(24_802).sub(d2.mul(Fx::from_raw(276)))),
                            ),
                        ),
                    ),
                ),
            ),
        ),
    )
}

fn round_div(x: Fx, m: Fx) -> (r: i64)
    ensures
        r as int == fx_round_div(x@, m@),
{
    x.div(m).add(Fx::from_raw(HALF)).floor()
}

fn reduce(x: Fx, k: i64, m: Fx) -> (r: Fx)
    ensures
        r@ == fx_reduce(x@, k as int, m@),
{
    x.sub(Fx::from_int(k).mul(m))
}

impl Fx {
    pub fn pi() -> (r: Fx)
        ensures
            r@ == PI as int,
    {
        Fx { raw: PI }
    }

    /// Sine of `self` radians.
    pub fn sin(self) -> (r: Fx)
        ensures
            r@ == fx_sin(self@),
    {
        let r = reduce(self, round_div(self, Fx::from_raw(TWO_PI)), Fx::from_raw(TWO_PI));
        let k2 = round_div(r, Fx::from_raw(HALF_PI));
        let d = reduce(r, k2, Fx::from_raw(HALF_PI));
        if k2 == 0 {
            sin_poly(d)
        } else if k2 == 1 {
            cos_poly(d)
        } else if k2 == -1 {
            cos_poly(d).neg()
        } else {
            sin_poly(d).neg()
        }
    }

    /// Cosine of `self` radians.
    pub fn cos(self) -> (r: Fx)
        ensures
            r@ == fx_cos(self@),
    {
        let r = reduce(self, round_div(self, Fx::from_raw(TWO_PI)), Fx::from_raw(TWO_PI));
        let k2 = round_div(r, Fx::from_raw(HALF_PI));
        let d = reduce(r, k2, Fx::from_raw(HALF_PI));
        if k2 == 0 {
            cos_poly(d)
        } else if k2 == 1 {
            sin_poly(d).neg()
        } else if k2 == -1 {
            sin_poly(d)
        } else {
            cos_poly(d).neg()
        }
    }

    /// Tangent of `self` radians.
    pub fn tan(self) -> (r: Fx)
        ensures
            r@ == fx_tan(self@),
    {
        self.sin().div(self.cos())
    }
}

} // verus!
