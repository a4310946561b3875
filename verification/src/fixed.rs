//! Fixed-point numbers with six decimal places.
//!
//! Every quantity of the simulation (positions, speeds, energies, phases) is a
//! `Fixed`: a signed count of millionths. Arithmetic never overflows; a result
//! that does not fit is pinned to the nearest end of the range, and products and
//! quotients are rounded toward zero.
use vstd::prelude::*;

verus! {

/// Raw units in one whole.
pub const SCALE: i64 = 1_000_000;

/// The largest raw value; the smallest is its negation.
pub const RAW_MAX: i64 = 9_223_372_036_854_775_807;

/// Half a turn (an approximation of pi), in raw units.
pub const HALF_TURN: i64 = 3_141_592;

/// A quarter of a turn, in raw units.
pub const QUARTER_TURN: i64 = 1_570_796;

/// A full turn, in raw units.
pub const FULL_TURN: i64 = 6_283_184;

/// `v` pinned to the range `[-RAW_MAX, RAW_MAX]`.
pub open spec fn clamp_raw(v: int) -> i64 {
    if v > RAW_MAX {
        RAW_MAX
    } else if v < -RAW_MAX {
        (-RAW_MAX) as i64
    } else {
        v as i64
    }
}

/// The absolute value of `v`.
pub open spec fn magnitude(v: int) -> nat {
    if v < 0 {
        (-v) as nat
    } else {
        v as nat
    }
}

/// The quotient of `a` by `b` rounded toward zero; 0 when `b` is 0.
pub open spec fn quot(a: int, b: int) -> int {
    if b == 0 {
        0
    } else if a >= 0 && b > 0 {
        a / b
    } else if a < 0 && b > 0 {
        -((-a) / b)
    } else if a >= 0 {
        -(a / (-b))
    } else {
        (-a) / (-b)
    }
}

/// What a division by zero gives: the end of the range on the dividend's side.
pub open spec fn unbounded(a: int) -> i64 {
    if a > 0 {
        RAW_MAX
    } else if a < 0 {
        (-RAW_MAX) as i64
    } else {
        0
    }
}

/// The integer square root: the largest `r` with `r * r <= n`.
pub open spec fn isqrt(n: nat) -> nat
    decreases n,
{
    if n == 0 {
        0
    } else {
        let r = isqrt((n - 1) as nat);
        if (r + 1) * (r + 1) <= n {
            r + 1
        } else {
            r
        }
    }
}

/// `isqrt(n)` is a root from below, and the next integer is not.
pub proof fn lemma_isqrt_bounds(n: nat)
    ensures
        isqrt(n) * isqrt(n) <= n,
        n < (isqrt(n) + 1) * (isqrt(n) + 1),
    decreases n,
{
    if n == 0 {
        let s = isqrt(n);
        assert(s == 0);
        assert((s + 1) * (s + 1) == 1) by (nonlinear_arith)
            requires
                s == 0,
        ;
    } else {
        lemma_isqrt_bounds((n - 1) as nat);
        let r = isqrt((n - 1) as nat);
        let s = isqrt(n);
        if (r + 1) * (r + 1) <= n {
            assert(s == r + 1);
            assert(n - 1 < (r + 1) * (r + 1));
            assert((r + 1) * (r + 1) < (s + 1) * (s + 1)) by (nonlinear_arith)
                requires
                    s == r + 1,
            ;
        } else {
            assert(s == r);
            assert(n < (s + 1) * (s + 1));
        }
    }
}

/// Only one integer lies between a square and the next.
pub proof fn lemma_isqrt_unique(n: nat, r: nat)
    requires
        r * r <= n,
        n < (r + 1) * (r + 1),
    ensures
        r == isqrt(n),
{
    lemma_isqrt_bounds(n);
    let s = isqrt(n);
    if r < s {
        assert((r + 1) * (r + 1) <= s * s) by (nonlinear_arith)
            requires
                r + 1 <= s,
        ;
    } else if s < r {
        assert((s + 1) * (s + 1) <= r * r) by (nonlinear_arith)
            requires
                s + 1 <= r,
        ;
    }
}

/// The sine of an angle in the first half turn, by Bhaskara's rational formula
/// `16 x (pi - x) / (5 pi^2 - 4 x (pi - x))`, in raw units.
pub open spec fn half_wave(x: int) -> int {
    let p = x * (HALF_TURN - x);
    (16 * p * SCALE) / (5 * HALF_TURN * HALF_TURN - 4 * p)
}

/// The sine of `angle` (raw units of radians), in raw units: the half wave,
/// mirrored in the second half turn, repeated every full turn.
pub open spec fn sin_raw(angle: int) -> int {
    let t = angle % (FULL_TURN as int);
    if t <= HALF_TURN {
        half_wave(t)
    } else {
        -half_wave(t - HALF_TURN)
    }
}

/// The cosine of `angle`: the sine a quarter turn further on.
pub open spec fn cos_raw(angle: int) -> int {
    sin_raw(angle + QUARTER_TURN)
}

/// The half wave stays between 0 and 1.
pub proof fn lemma_half_wave_range(x: int)
    requires
        0 <= x <= HALF_TURN,
    ensures
        0 <= half_wave(x) <= SCALE,
{
    let h = HALF_TURN as int;
    let p = x * (h - x);
    let d = 5 * h * h - 4 * p;
    assert(0 <= p) by (nonlinear_arith)
        requires
            0 <= x <= h,
            p == x * (h - x),
    ;
    assert((h - 2 * x) * (h - 2 * x) >= 0) by (nonlinear_arith);
    assert(4 * p <= h * h) by (nonlinear_arith)
        requires
            p == x * (h - x),
            (h - 2 * x) * (h - 2 * x) >= 0,
    ;
    assert(h * h == 9_869_600_294_464) by (nonlinear_arith)
        requires
            h == 3_141_592,
    ;
    assert(d > 0);
    let n = 16 * p * SCALE;
    assert(n == 16_000_000 * p) by (nonlinear_arith)
        requires
            n == 16 * p * SCALE,
            SCALE == 1_000_000,
    ;
    assert(d == 5 * (h * h) - 4 * p) by (nonlinear_arith)
        requires
            d == 5 * h * h - 4 * p,
    ;
    assert(0 <= n);
    assert(n <= SCALE * d);
    assert(0 <= n / d <= SCALE) by (nonlinear_arith)
        requires
            d > 0,
            0 <= n <= SCALE * d,
    ;
}

/// The sine stays between -1 and 1.
pub proof fn lemma_sin_range(angle: int)
    ensures
        -SCALE <= sin_raw(angle) <= SCALE,
{
    let t = angle % (FULL_TURN as int);
    if t <= HALF_TURN {
        lemma_half_wave_range(t);
    } else {
        lemma_half_wave_range(t - HALF_TURN);
    }
}

/// The absolute value of `x` as an unsigned number.
fn magnitude_of(x: i64) -> (m: u64)
    ensures
        m == magnitude(x as int),
{
    if x >= 0 {
        x as u64
    } else if x == i64::MIN {
        9_223_372_036_854_775_808u64
    } else {
        (-x) as u64
    }
}

/// The raw value with magnitude `q`, negative if `negative`, pinned to the range.
fn signed_clamped(negative: bool, q: u128) -> (raw: i64)
    ensures
        raw == clamp_raw(
            if negative {
                -(q as int)
            } else {
                q as int
            },
        ),
{
    let m: i64 = if q > 9_223_372_036_854_775_807u128 {
        RAW_MAX
    } else {
        q as i64
    };
    if negative {
        -m
    } else {
        m
    }
}

/// `angle` reduced into `[0, FULL_TURN)`.
fn reduce_turn(angle: i64) -> (t: i64)
    ensures
        t == (angle as int) % (FULL_TURN as int),
        0 <= t < FULL_TURN,
{
    if angle >= 0 {
        angle % FULL_TURN
    } else {
        let m: i64 = (-(angle + 1)) % FULL_TURN;
        FULL_TURN - 1 - m
    }
}

/// The half wave at `x`, computed.
fn half_wave_of(x: i64) -> (r: i64)
    requires
        0 <= x <= HALF_TURN,
    ensures
        r == half_wave(x as int),
        0 <= r <= SCALE,
{
    proof {
        lemma_half_wave_range(x as int);
    }
    let h: i128 = HALF_TURN as i128;
    let xx: i128 = x as i128;
    assert(0 <= xx * (h - xx) <= 9_869_600_294_464) by (nonlinear_arith)
        requires
            0 <= xx <= h,
            h == 3_141_592,
    ;
    let p: i128 = xx * (h - xx);
    assert(h * h == 9_869_600_294_464) by (nonlinear_arith)
        requires
            h == 3_141_592,
    ;
    let d: i128 = 5 * h * h - 4 * p;
    let n: i128 = 16_000_000i128 * p;
    assert(5 * HALF_TURN * HALF_TURN == 5 * h * h) by (nonlinear_arith)
        requires
            h == HALF_TURN,
    ;
    (n / d) as i64
}

/// The integer square root of `n`, found by bisection.
fn isqrt_of(n: u128) -> (r: u64)
    requires
        n <= 0x8000_0000_0000_0000_0000_0000_0000_0000,
    ensures
        r == isqrt(n as nat),
{
    let mut lo: u128 = 0;
    let mut hi: u128 = 0x1_0000_0000_0000_0000u128;
    assert(hi * hi == 0x1_0000_0000_0000_0000_0000_0000_0000_0000) by (nonlinear_arith)
        requires
            hi == 0x1_0000_0000_0000_0000u128,
    ;
    while hi - lo > 1
        invariant
            lo < hi <= 0x1_0000_0000_0000_0000u128,
            lo * lo <= n,
            n < hi * hi,
        decreases hi - lo,
    {
        let mid: u128 = lo + (hi - lo) / 2;
        assert(mid * mid <= 0xffff_ffff_ffff_ffff_ffff_ffff_ffff_ffff) by (nonlinear_arith)
            requires
                0 <= mid <= 0xffff_ffff_ffff_ffffu128,
        ;
        if mid * mid <= n {
            lo = mid;
        } else {
            hi = mid;
        }
    }
    proof {
        lemma_isqrt_unique(n as nat, lo as nat);
    }
    lo as u64
}

/// A fixed-point number: `raw` millionths.
#[derive(Clone, Copy, PartialEq, Eq, Structural, Debug)]
pub struct Fixed {
    /// The number of millionths.
    pub raw: i64,
}

impl Fixed {
    pub open spec fn spec_from_raw(raw: i64) -> Fixed {
        Fixed { raw }
    }

    /// The number of `raw` millionths.
    #[verifier::when_used_as_spec(spec_from_raw)]
    pub fn from_raw(raw: i64) -> (r: Fixed)
        ensures
            r == Fixed::spec_from_raw(raw),
    {
        Fixed { raw }
    }

    pub open spec fn spec_zero() -> Fixed {
        Fixed { raw: 0 }
    }

    /// Zero.
    #[verifier::when_used_as_spec(spec_zero)]
    pub fn zero() -> (r: Fixed)
        ensures
            r == Fixed::spec_zero(),
    {
        Fixed { raw: 0 }
    }

    pub open spec fn spec_one() -> Fixed {
        Fixed { raw: SCALE }
    }

    /// One.
    #[verifier::when_used_as_spec(spec_one)]
    pub fn one() -> (r: Fixed)
        ensures
            r == Fixed::spec_one(),
    {
        Fixed { raw: SCALE }
    }

    pub open spec fn spec_from_int(n: i64) -> Fixed {
        Fixed { raw: clamp_raw(n * SCALE) }
    }

    /// The whole number `n`.
    #[verifier::when_used_as_spec(spec_from_int)]
    pub fn from_int(n: i64) -> (r: Fixed)
        ensures
            r == Fixed::spec_from_int(n),
    {
        let wide: i128 = (n as i128) * 1_000_000i128;
        let raw: i64 = if wide > RAW_MAX as i128 {
            RAW_MAX
        } else if wide < -(RAW_MAX as i128) {
            -RAW_MAX
        } else {
            wide as i64
        };
        Fixed { raw }
    }

    pub open spec fn spec_add(self, rhs: Fixed) -> Fixed {
        Fixed { raw: clamp_raw(self.raw + rhs.raw) }
    }

    /// The sum.
    #[verifier::when_used_as_spec(spec_add)]
    pub fn add(self, rhs: Fixed) -> (r: Fixed)
        ensures
            r == self.spec_add(rhs),
    {
        let wide: i128 = (self.raw as i128) + (rhs.raw as i128);
        let raw: i64 = if wide > RAW_MAX as i128 {
            RAW_MAX
        } else if wide < -(RAW_MAX as i128) {
            -RAW_MAX
        } else {
            wide as i64
        };
        Fixed { raw }
    }

    pub open spec fn spec_sub(self, rhs: Fixed) -> Fixed {
        Fixed { raw: clamp_raw(self.raw - rhs.raw) }
    }

    /// The difference.
    #[verifier::when_used_as_spec(spec_sub)]
    pub fn sub(self, rhs: Fixed) -> (r: Fixed)
        ensures
            r == self.spec_sub(rhs),
    {
        let wide: i128 = (self.raw as i128) - (rhs.raw as i128);
        let raw: i64 = if wide > RAW_MAX as i128 {
            RAW_MAX
        } else if wide < -(RAW_MAX as i128) {
            -RAW_MAX
        } else {
            wide as i64
        };
        Fixed { raw }
    }

    pub open spec fn spec_neg(self) -> Fixed {
        Fixed { raw: clamp_raw(-self.raw) }
    }

    /// The negation.
    #[verifier::when_used_as_spec(spec_neg)]
    pub fn neg(self) -> (r: Fixed)
        ensures
            r == self.spec_neg(),
    {
        if self.raw == i64::MIN {
            Fixed { raw: RAW_MAX }
        } else {
            Fixed { raw: -self.raw }
        }
    }

    #[verifier::opaque]
    pub open spec fn spec_mul(self, rhs: Fixed) -> Fixed {
        Fixed { raw: clamp_raw(quot(self.raw * rhs.raw, SCALE as int)) }
    }

    /// The product, rounded toward zero.
    #[verifier::when_used_as_spec(spec_mul)]
    pub fn mul(self, rhs: Fixed) -> (r: Fixed)
        ensures
            r == self.spec_mul(rhs),
            r.raw == clamp_raw(quot(self.raw * rhs.raw, SCALE as int)),
    {
        reveal(Fixed::spec_mul);
        let negative = (self.raw < 0) != (rhs.raw < 0);
        let a: u128 = magnitude_of(self.raw) as u128;
        let b: u128 = magnitude_of(rhs.raw) as u128;
        assert(a * b <= 0x4000_0000_0000_0000_0000_0000_0000_0000) by (nonlinear_arith)
            requires
                0 <= a <= 0x8000_0000_0000_0000,
                0 <= b <= 0x8000_0000_0000_0000,
        ;
        let product: u128 = a * b;
        let q: u128 = product / 1_000_000u128;
        proof {
            let x = self.raw as int;
            let y = rhs.raw as int;
            assert(magnitude(x * y) == magnitude(x) * magnitude(y)) by (nonlinear_arith);
            assert((x * y < 0) ==> negative) by (nonlinear_arith)
                requires
                    negative == ((x < 0) != (y < 0)),
            ;
            assert(negative && x * y >= 0 ==> x * y == 0) by (nonlinear_arith)
                requires
                    negative == ((x < 0) != (y < 0)),
            ;
        }
        Fixed { raw: signed_clamped(negative, q) }
    }

    #[verifier::opaque]
    pub open spec fn spec_div(self, rhs: Fixed) -> Fixed {
        if rhs.raw == 0 {
            Fixed { raw: unbounded(self.raw as int) }
        } else {
            Fixed { raw: clamp_raw(quot(self.raw * SCALE, rhs.raw as int)) }
        }
    }

    /// The quotient, rounded toward zero. A division by zero gives the end of
    /// the range on the dividend's side, and zero for zero by zero.
    #[verifier::when_used_as_spec(spec_div)]
    pub fn div(self, rhs: Fixed) -> (r: Fixed)
        ensures
            r == self.spec_div(rhs),
            rhs.raw != 0 ==> r.raw == clamp_raw(quot(self.raw * SCALE, rhs.raw as int)),
            rhs.raw == 0 ==> r.raw == unbounded(self.raw as int),
    {
        reveal(Fixed::spec_div);
        if rhs.raw == 0 {
            if self.raw > 0 {
                Fixed { raw: RAW_MAX }
            } else if self.raw < 0 {
                Fixed { raw: -RAW_MAX }
            } else {
                Fixed { raw: 0 }
            }
        } else {
            let negative = (self.raw < 0) != (rhs.raw < 0);
            let a: u128 = magnitude_of(self.raw) as u128;
            let b: u128 = magnitude_of(rhs.raw) as u128;
            let q: u128 = (a * 1_000_000u128) / b;
            proof {
                let x = self.raw as int;
                assert(magnitude(x * SCALE) == magnitude(x) * SCALE) by (nonlinear_arith);
                assert((x * SCALE < 0) == (x < 0)) by (nonlinear_arith);
            }
            Fixed { raw: signed_clamped(negative, q) }
        }
    }

    #[verifier::opaque]
    pub open spec fn spec_div_count(self, n: usize) -> Fixed {
        if n == 0 {
            Fixed { raw: unbounded(self.raw as int) }
        } else {
            Fixed { raw: clamp_raw(quot(self.raw as int, n as int)) }
        }
    }

    /// The quotient by a count, rounded toward zero; by zero as in `div`.
    #[verifier::when_used_as_spec(spec_div_count)]
    pub fn div_count(self, n: usize) -> (r: Fixed)
        ensures
            r == self.spec_div_count(n),
            n != 0 ==> r.raw == clamp_raw(quot(self.raw as int, n as int)),
            n == 0 ==> r.raw == unbounded(self.raw as int),
    {
        reveal(Fixed::spec_div_count);
        if n == 0 {
            if self.raw > 0 {
                Fixed { raw: RAW_MAX }
            } else if self.raw < 0 {
                Fixed { raw: -RAW_MAX }
            } else {
                Fixed { raw: 0 }
            }
        } else {
            let a: u128 = magnitude_of(self.raw) as u128;
            let q: u128 = a / (n as u128);
            Fixed { raw: signed_clamped(self.raw < 0, q) }
        }
    }

    #[verifier::opaque]
    pub open spec fn spec_sqrt(self) -> Fixed {
        if self.raw <= 0 {
            Fixed { raw: 0 }
        } else {
            Fixed { raw: isqrt((self.raw * SCALE) as nat) as i64 }
        }
    }

    /// The square root, rounded down; zero for a negative number.
    #[verifier::when_used_as_spec(spec_sqrt)]
    pub fn sqrt(self) -> (r: Fixed)
        ensures
            r == self.spec_sqrt(),
            0 <= r.raw,
            self.raw <= 0 ==> r.raw == 0,
            self.raw > 0 ==> r.raw * r.raw <= self.raw * SCALE < (r.raw + 1) * (r.raw + 1),
    {
        reveal(Fixed::spec_sqrt);
        if self.raw <= 0 {
            return Fixed { raw: 0 };
        }
        let n: u128 = (self.raw as u128) * 1_000_000u128;
        let r: u64 = isqrt_of(n);
        proof {
            lemma_isqrt_bounds(n as nat);
            assert(r < 0x400_0000_0000) by (nonlinear_arith)
                requires
                    r * r <= n,
                    n < 0x10_0000_0000_0000_0000_0000,
            ;
        }
        Fixed { raw: r as i64 }
    }

    pub open spec fn spec_hypot(x: Fixed, y: Fixed) -> Fixed {
        Fixed { raw: clamp_raw(isqrt((x.raw * x.raw + y.raw * y.raw) as nat) as int) }
    }

    /// The length of the vector `(x, y)`: the square root of the sum of the
    /// squares, rounded down, with nothing lost on the way.
    #[verifier::when_used_as_spec(spec_hypot)]
    pub fn hypot(x: Fixed, y: Fixed) -> (r: Fixed)
        ensures
            r == Fixed::spec_hypot(x, y),
            0 <= r.raw,
    {
        let a: u128 = magnitude_of(x.raw) as u128;
        let b: u128 = magnitude_of(y.raw) as u128;
        assert(a * a <= 0x4000_0000_0000_0000_0000_0000_0000_0000) by (nonlinear_arith)
            requires
                0 <= a <= 0x8000_0000_0000_0000,
        ;
        assert(b * b <= 0x4000_0000_0000_0000_0000_0000_0000_0000) by (nonlinear_arith)
            requires
                0 <= b <= 0x8000_0000_0000_0000,
        ;
        assert(a * a == x.raw * x.raw) by (nonlinear_arith)
            requires
                a == magnitude(x.raw as int),
        ;
        assert(b * b == y.raw * y.raw) by (nonlinear_arith)
            requires
                b == magnitude(y.raw as int),
        ;
        let r: u64 = isqrt_of(a * a + b * b);
        Fixed { raw: signed_clamped(false, r as u128) }
    }

    pub open spec fn spec_hypot_exceeds(x: Fixed, y: Fixed, limit: Fixed) -> bool {
        x.raw * x.raw + y.raw * y.raw > limit.raw * limit.raw
    }

    /// Whether the vector `(x, y)` is longer than `limit`, or than its negation
    /// where `limit` is negative: an exact comparison of the squares.
    #[verifier::when_used_as_spec(spec_hypot_exceeds)]
    pub fn hypot_exceeds(x: Fixed, y: Fixed, limit: Fixed) -> (b: bool)
        ensures
            b == Fixed::spec_hypot_exceeds(x, y, limit),
    {
        let a: u128 = magnitude_of(x.raw) as u128;
        let b: u128 = magnitude_of(y.raw) as u128;
        let m: u128 = magnitude_of(limit.raw) as u128;
        assert(a * a <= 0x4000_0000_0000_0000_0000_0000_0000_0000) by (nonlinear_arith)
            requires
                0 <= a <= 0x8000_0000_0000_0000,
        ;
        assert(b * b <= 0x4000_0000_0000_0000_0000_0000_0000_0000) by (nonlinear_arith)
            requires
                0 <= b <= 0x8000_0000_0000_0000,
        ;
        assert(m * m <= 0x4000_0000_0000_0000_0000_0000_0000_0000) by (nonlinear_arith)
            requires
                0 <= m <= 0x8000_0000_0000_0000,
        ;
        assert(a * a == x.raw * x.raw) by (nonlinear_arith)
            requires
                a == magnitude(x.raw as int),
        ;
        assert(b * b == y.raw * y.raw) by (nonlinear_arith)
            requires
                b == magnitude(y.raw as int),
        ;
        assert(m * m == limit.raw * limit.raw) by (nonlinear_arith)
            requires
                m == magnitude(limit.raw as int),
        ;
        a * a + b * b > m * m
    }

    #[verifier::opaque]
    pub open spec fn spec_sin(self) -> Fixed {
        Fixed { raw: sin_raw(self.raw as int) as i64 }
    }

    /// The sine of an angle in radians: between -1 and 1, zero at zero, one at a
    /// quarter turn, with period `FULL_TURN`.
    #[verifier::when_used_as_spec(spec_sin)]
    pub fn sin(self) -> (r: Fixed)
        ensures
            r == self.spec_sin(),
            r.raw == sin_raw(self.raw as int),
            -SCALE <= r.raw <= SCALE,
    {
        reveal(Fixed::spec_sin);
        let t = reduce_turn(self.raw);
        if t <= HALF_TURN {
            Fixed { raw: half_wave_of(t) }
        } else {
            Fixed { raw: -half_wave_of(t - HALF_TURN) }
        }
    }

    #[verifier::opaque]
    pub open spec fn spec_cos(self) -> Fixed {
        Fixed { raw: cos_raw(self.raw as int) as i64 }
    }

    /// The cosine of an angle in radians: the sine a quarter turn further on.
    #[verifier::when_used_as_spec(spec_cos)]
    pub fn cos(self) -> (r: Fixed)
        ensures
            r == self.spec_cos(),
            r.raw == cos_raw(self.raw as int),
            -SCALE <= r.raw <= SCALE,
    {
        reveal(Fixed::spec_cos);
        let t = reduce_turn(self.raw);
        let shifted: i64 = if t + QUARTER_TURN >= FULL_TURN {
            t + QUARTER_TURN - FULL_TURN
        } else {
            t + QUARTER_TURN
        };
        assert(shifted == (self.raw + QUARTER_TURN) % (FULL_TURN as int));
        if shifted <= HALF_TURN {
            Fixed { raw: half_wave_of(shifted) }
        } else {
            Fixed { raw: -half_wave_of(shifted - HALF_TURN) }
        }
    }

    pub open spec fn spec_min(self, rhs: Fixed) -> Fixed {
        if rhs.raw < self.raw {
            rhs
        } else {
            self
        }
    }

    /// The smaller of the two.
    #[verifier::when_used_as_spec(spec_min)]
    pub fn min(self, rhs: Fixed) -> (r: Fixed)
        ensures
            r == self.spec_min(rhs),
    {
        if rhs.raw < self.raw {
            rhs
        } else {
            self
        }
    }

    pub open spec fn spec_max(self, rhs: Fixed) -> Fixed {
        if rhs.raw > self.raw {
            rhs
        } else {
            self
        }
    }

    /// The larger of the two.
    #[verifier::when_used_as_spec(spec_max)]
    pub fn max(self, rhs: Fixed) -> (r: Fixed)
        ensures
            r == self.spec_max(rhs),
    {
        if rhs.raw > self.raw {
            rhs
        } else {
            self
        }
    }

    pub open spec fn spec_fract(self) -> Fixed {
        Fixed { raw: (self.raw - quot(self.raw as int, SCALE as int) * SCALE) as i64 }
    }

    /// The part after the decimal point, with the sign of the number.
    #[verifier::when_used_as_spec(spec_fract)]
    pub fn fract(self) -> (r: Fixed)
        ensures
            r == self.spec_fract(),
            -SCALE < r.raw < SCALE,
    {
        let a: u64 = magnitude_of(self.raw);
        let m: u64 = a % 1_000_000u64;
        if self.raw < 0 {
            Fixed { raw: -(m as i64) }
        } else {
            Fixed { raw: m as i64 }
        }
    }

    pub open spec fn spec_trunc_u32(self) -> u32 {
        if self.raw < 0 {
            0
        } else if self.raw / SCALE > u32::MAX {
            u32::MAX
        } else {
            (self.raw / SCALE) as u32
        }
    }

    /// The whole part as a count: zero for a negative number, the largest count
    /// for one too large.
    #[verifier::when_used_as_spec(spec_trunc_u32)]
    pub fn trunc_u32(self) -> (n: u32)
        ensures
            n == self.spec_trunc_u32(),
    {
        if self.raw < 0 {
            0
        } else {
            let whole: i64 = self.raw / SCALE;
            if whole > 4_294_967_295i64 {
                u32::MAX
            } else {
                whole as u32
            }
        }
    }
}

/// A product that is a whole number of raw units is exact: where
/// `a.raw * b.raw` is `product` times the scale, and `product` fits, the
/// product of `a` and `b` is `product` raw units.
pub proof fn lemma_mul_exact(a: Fixed, b: Fixed, product: int)
    requires
        a.raw * b.raw == product * SCALE,
        -RAW_MAX <= product <= RAW_MAX,
    ensures
        a.mul(b).raw == product,
{
    reveal(Fixed::spec_mul);
    let p = a.raw * b.raw;
    let s = SCALE as int;
    assert(magnitude(p) == magnitude(product) * s) by (nonlinear_arith)
        requires
            p == product * s,
            s == 1_000_000,
    ;
    assert((magnitude(product) * s) / s == magnitude(product)) by (nonlinear_arith)
        requires
            s == 1_000_000,
    ;
    assert((p < 0) == (product < 0)) by (nonlinear_arith)
        requires
            p == product * s,
            s == 1_000_000,
    ;
}

/// A square root is never negative.
pub proof fn lemma_sqrt_not_negative(a: Fixed)
    ensures
        a.sqrt().raw >= 0,
{
    reveal(Fixed::spec_sqrt);
    if a.raw > 0 {
        lemma_isqrt_bounds((a.raw * SCALE) as nat);
        let n = (a.raw * SCALE) as nat;
        let r = isqrt(n);
        assert(n < 0x10_0000_0000_0000_0000_0000);
        assert(r < 0x400_0000_0000) by (nonlinear_arith)
            requires
                r * r <= n,
                n < 0x10_0000_0000_0000_0000_0000,
        ;
    }
}

/// The quotient of a number that is not negative by a positive one is not
/// negative.
pub proof fn lemma_div_not_negative(a: Fixed, b: Fixed)
    requires
        a.raw >= 0,
        b.raw > 0,
    ensures
        a.div(b).raw >= 0,
{
    reveal(Fixed::spec_div);
    let p = a.raw * SCALE;
    assert(p >= 0) by (nonlinear_arith)
        requires
            a.raw >= 0,
            p == a.raw * SCALE,
    ;
    assert(p / (b.raw as int) >= 0) by (nonlinear_arith)
        requires
            p >= 0,
            b.raw > 0,
    ;
}

/// A fraction of a number that is not negative lies between zero and the
/// number: for `a` between 0 and 1, `a * b` lies between 0 and `b`.
pub proof fn lemma_mul_fraction(a: Fixed, b: Fixed)
    requires
        0 <= a.raw <= SCALE,
        0 <= b.raw,
    ensures
        0 <= a.mul(b).raw <= b.raw,
{
    reveal(Fixed::spec_mul);
    let p = a.raw * b.raw;
    let s = SCALE as int;
    assert(0 <= p <= s * b.raw) by (nonlinear_arith)
        requires
            0 <= a.raw <= s,
            0 <= b.raw,
            p == a.raw * b.raw,
    ;
    assert(0 <= p / s <= b.raw) by (nonlinear_arith)
        requires
            0 <= p <= s * b.raw,
            s == 1_000_000,
    ;
}

/// A length is at least the magnitude of either coordinate, up to the end of
/// the range.
pub proof fn lemma_hypot_dominates(x: Fixed, y: Fixed)
    ensures
        Fixed::hypot(x, y).raw >= 0,
        Fixed::hypot(x, y).raw >= magnitude(x.raw as int) || Fixed::hypot(x, y).raw == RAW_MAX,
        Fixed::hypot(x, y).raw >= magnitude(y.raw as int) || Fixed::hypot(x, y).raw == RAW_MAX,
{
    let n = (x.raw * x.raw + y.raw * y.raw) as nat;
    let r = isqrt(n);
    let a = magnitude(x.raw as int);
    let b = magnitude(y.raw as int);
    assert(a * a == x.raw * x.raw) by (nonlinear_arith)
        requires
            a == magnitude(x.raw as int),
    ;
    assert(b * b == y.raw * y.raw) by (nonlinear_arith)
        requires
            b == magnitude(y.raw as int),
    ;
    lemma_isqrt_bounds(n);
    assert(r >= a) by (nonlinear_arith)
        requires
            n < (r + 1) * (r + 1),
            a * a <= n,
    ;
    assert(r >= b) by (nonlinear_arith)
        requires
            n < (r + 1) * (r + 1),
            b * b <= n,
    ;
}

/// A quotient by a divisor of at least the dividend's magnitude lies between
/// -1 and 1; so does any quotient by the largest number.
pub proof fn lemma_div_by_larger(a: Fixed, b: Fixed)
    requires
        b.raw > 0,
        b.raw >= magnitude(a.raw as int) || b.raw == RAW_MAX,
    ensures
        -SCALE <= a.div(b).raw <= SCALE,
{
    reveal(Fixed::spec_div);
    let m = magnitude(a.raw as int) as int;
    let d = b.raw as int;
    let s = SCALE as int;
    let p = a.raw * s;
    assert(magnitude(p) == m * s) by (nonlinear_arith)
        requires
            p == a.raw * s,
            m == magnitude(a.raw as int),
            s == 1_000_000,
    ;
    assert((m * s) / d <= s) by (nonlinear_arith)
        requires
            d > 0,
            0 <= m,
            s == 1_000_000,
            m <= d || (d == 9_223_372_036_854_775_807 && m <= 9_223_372_036_854_775_808),
    ;
    assert((m * s) / d >= 0) by (nonlinear_arith)
        requires
            d > 0,
            0 <= m,
            s == 1_000_000,
    ;
    assert((p < 0) == (a.raw < 0)) by (nonlinear_arith)
        requires
            p == a.raw * s,
            s == 1_000_000,
    ;
}

/// A product with a factor between -1 and 1 is no larger in magnitude than the
/// other factor.
pub proof fn lemma_mul_by_unit(a: Fixed, b: Fixed)
    requires
        -SCALE <= a.raw <= SCALE,
    ensures
        magnitude(a.mul(b).raw as int) <= magnitude(b.raw as int),
{
    reveal(Fixed::spec_mul);
    let s = SCALE as int;
    let p = a.raw * b.raw;
    let ma = magnitude(a.raw as int) as int;
    let mb = magnitude(b.raw as int) as int;
    assert(magnitude(p) == ma * mb) by (nonlinear_arith)
        requires
            p == a.raw * b.raw,
            ma == magnitude(a.raw as int),
            mb == magnitude(b.raw as int),
    ;
    assert(0 <= (ma * mb) / s <= mb) by (nonlinear_arith)
        requires
            0 <= ma <= s,
            0 <= mb,
            s == 1_000_000,
    ;
}

} // verus!
