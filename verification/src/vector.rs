//! Two-dimensional vectors over fixed-point numbers.
use crate::fixed::{
    lemma_div_by_larger, lemma_hypot_dominates, lemma_mul_by_unit, magnitude, Fixed, SCALE,
};
use vstd::prelude::*;

verus! {

/// A point or a displacement in the plane.
#[derive(Clone, Copy, PartialEq, Eq, Structural, Debug)]
pub struct Vec2 {
    /// The first coordinate.
    pub x: Fixed,
    /// The second coordinate.
    pub y: Fixed,
}

impl Vec2 {
    pub open spec fn spec_new(x: Fixed, y: Fixed) -> Vec2 {
        Vec2 { x, y }
    }

    /// The vector with the given coordinates.
    #[verifier::when_used_as_spec(spec_new)]
    pub fn new(x: Fixed, y: Fixed) -> (v: Vec2)
        ensures
            v == Vec2::spec_new(x, y),
    {
        Vec2 { x, y }
    }

    pub open spec fn spec_zero() -> Vec2 {
        Vec2 { x: Fixed::zero(), y: Fixed::zero() }
    }

    /// The zero vector.
    #[verifier::when_used_as_spec(spec_zero)]
    pub fn zero() -> (v: Vec2)
        ensures
            v == Vec2::spec_zero(),
    {
        Vec2 { x: Fixed::zero(), y: Fixed::zero() }
    }

    pub open spec fn spec_from_angle(angle: Fixed, magnitude: Fixed) -> Vec2 {
        Vec2 { x: angle.cos().mul(magnitude), y: angle.sin().mul(magnitude) }
    }

    /// The vector of the given length that points along `angle` (radians).
    #[verifier::when_used_as_spec(spec_from_angle)]
    pub fn from_angle(angle: Fixed, magnitude: Fixed) -> (v: Vec2)
        ensures
            v == Vec2::spec_from_angle(angle, magnitude),
    {
        Vec2 { x: angle.cos().mul(magnitude), y: angle.sin().mul(magnitude) }
    }

    pub open spec fn spec_add(&self, other: Vec2) -> Vec2 {
        Vec2 { x: self.x.add(other.x), y: self.y.add(other.y) }
    }

    /// The sum, coordinate by coordinate.
    #[verifier::when_used_as_spec(spec_add)]
    pub fn add(&self, other: Vec2) -> (v: Vec2)
        ensures
            v == self.spec_add(other),
    {
        Vec2 { x: self.x.add(other.x), y: self.y.add(other.y) }
    }

    pub open spec fn spec_sub(&self, other: Vec2) -> Vec2 {
        Vec2 { x: self.x.sub(other.x), y: self.y.sub(other.y) }
    }

    /// The difference, coordinate by coordinate.
    #[verifier::when_used_as_spec(spec_sub)]
    pub fn sub(&self, other: Vec2) -> (v: Vec2)
        ensures
            v == self.spec_sub(other),
    {
        Vec2 { x: self.x.sub(other.x), y: self.y.sub(other.y) }
    }

    pub open spec fn spec_mult(&self, scalar: Fixed) -> Vec2 {
        Vec2 { x: self.x.mul(scalar), y: self.y.mul(scalar) }
    }

    /// The vector scaled by `scalar`.
    #[verifier::when_used_as_spec(spec_mult)]
    pub fn mult(&self, scalar: Fixed) -> (v: Vec2)
        ensures
            v == self.spec_mult(scalar),
    {
        Vec2 { x: self.x.mul(scalar), y: self.y.mul(scalar) }
    }

    pub open spec fn spec_div(&self, scalar: Fixed) -> Vec2 {
        if scalar.raw == 0 {
            Vec2::zero()
        } else {
            Vec2 { x: self.x.div(scalar), y: self.y.div(scalar) }
        }
    }

    /// The vector divided by `scalar`; the zero vector when `scalar` is zero.
    #[verifier::when_used_as_spec(spec_div)]
    pub fn div(&self, scalar: Fixed) -> (v: Vec2)
        ensures
            v == self.spec_div(scalar),
    {
        if scalar.raw == 0 {
            Vec2::zero()
        } else {
            Vec2 { x: self.x.div(scalar), y: self.y.div(scalar) }
        }
    }

    pub open spec fn spec_mag_sq(&self) -> Fixed {
        self.x.mul(self.x).add(self.y.mul(self.y))
    }

    /// The squared length.
    #[verifier::when_used_as_spec(spec_mag_sq)]
    pub fn mag_sq(&self) -> (m: Fixed)
        ensures
            m == self.spec_mag_sq(),
    {
        self.x.mul(self.x).add(self.y.mul(self.y))
    }

    pub open spec fn spec_mag(&self) -> Fixed {
        Fixed::hypot(self.x, self.y)
    }

    /// The length, rounded down.
    #[verifier::when_used_as_spec(spec_mag)]
    pub fn mag(&self) -> (m: Fixed)
        ensures
            m == self.spec_mag(),
    {
        Fixed::hypot(self.x, self.y)
    }

    pub open spec fn spec_dist_sq(&self, other: Vec2) -> Fixed {
        self.sub(other).mag_sq()
    }

    /// The squared distance to `other`.
    #[verifier::when_used_as_spec(spec_dist_sq)]
    pub fn dist_sq(&self, other: Vec2) -> (d: Fixed)
        ensures
            d == self.spec_dist_sq(other),
    {
        let dx = self.x.sub(other.x);
        let dy = self.y.sub(other.y);
        dx.mul(dx).add(dy.mul(dy))
    }

    pub open spec fn spec_dist(&self, other: Vec2) -> Fixed {
        self.sub(other).mag()
    }

    /// The distance to `other`, rounded down.
    #[verifier::when_used_as_spec(spec_dist)]
    pub fn dist(&self, other: Vec2) -> (d: Fixed)
        ensures
            d == self.spec_dist(other),
    {
        self.sub(other).mag()
    }

    pub open spec fn spec_normalize(&self) -> Vec2 {
        self.div(self.mag())
    }

    /// The vector scaled to length one; the zero vector stays zero.
    #[verifier::when_used_as_spec(spec_normalize)]
    pub fn normalize(&self) -> (v: Vec2)
        ensures
            v == self.spec_normalize(),
            self.mag().raw == 0 ==> v == Vec2::zero(),
    {
        let m = self.mag();
        if m.raw == 0 {
            Vec2::zero()
        } else {
            self.div(m)
        }
    }

    pub open spec fn spec_limit(&self, max: Fixed) -> Vec2 {
        if Fixed::hypot_exceeds(self.x, self.y, max) {
            self.normalize().mult(max)
        } else {
            *self
        }
    }

    /// The vector itself if it is no longer than `max`, else the vector of
    /// length `max` in its direction.
    #[verifier::when_used_as_spec(spec_limit)]
    pub fn limit(&self, max: Fixed) -> (v: Vec2)
        ensures
            v == self.spec_limit(max),
    {
        if Fixed::hypot_exceeds(self.x, self.y, max) {
            self.normalize().mult(max)
        } else {
            *self
        }
    }

    pub open spec fn spec_div_count(&self, n: usize) -> Vec2 {
        Vec2 { x: self.x.div_count(n), y: self.y.div_count(n) }
    }

    /// The vector divided by a count: the mean of `n` summed vectors.
    #[verifier::when_used_as_spec(spec_div_count)]
    pub fn div_count(&self, n: usize) -> (v: Vec2)
        ensures
            v == self.spec_div_count(n),
    {
        Vec2 { x: self.x.div_count(n), y: self.y.div_count(n) }
    }

    pub open spec fn spec_is_zero(&self) -> bool {
        self.x.raw == 0 && self.y.raw == 0
    }

    /// Whether both coordinates are zero.
    #[verifier::when_used_as_spec(spec_is_zero)]
    pub fn is_zero(&self) -> (b: bool)
        ensures
            b == self.spec_is_zero(),
    {
        self.x.raw == 0 && self.y.raw == 0
    }

    /// Adds `other` in place.
    pub fn add_mut(&mut self, other: Vec2)
        ensures
            *final(self) == old(self).add(other),
    {
        self.x = self.x.add(other.x);
        self.y = self.y.add(other.y);
    }

    /// Scales in place.
    pub fn mult_mut(&mut self, scalar: Fixed)
        ensures
            *final(self) == old(self).mult(scalar),
    {
        self.x = self.x.mul(scalar);
        self.y = self.y.mul(scalar);
    }

    /// Shortens in place to length `max` where the vector is longer.
    pub fn limit_mut(&mut self, max: Fixed)
        ensures
            *final(self) == old(self).limit(max),
    {
        let limited = self.limit(max);
        self.x = limited.x;
        self.y = limited.y;
    }

    /// Overwrites both coordinates.
    pub fn set(&mut self, x: Fixed, y: Fixed)
        ensures
            *final(self) == Vec2::new(x, y),
    {
        self.x = x;
        self.y = y;
    }

    /// Overwrites the vector with zero.
    pub fn reset(&mut self)
        ensures
            *final(self) == Vec2::zero(),
    {
        self.x = Fixed::zero();
        self.y = Fixed::zero();
    }
}

/// The coordinates of a normalized vector lie between -1 and 1.
pub proof fn lemma_normalize_in_unit(v: Vec2)
    ensures
        -SCALE <= v.normalize().x.raw <= SCALE,
        -SCALE <= v.normalize().y.raw <= SCALE,
{
    lemma_hypot_dominates(v.x, v.y);
    let m = v.mag();
    if m.raw != 0 {
        lemma_div_by_larger(v.x, m);
        lemma_div_by_larger(v.y, m);
    }
}

/// A limited vector is within the limit: neither coordinate exceeds the limit
/// in magnitude.
pub proof fn lemma_limit_bounds(v: Vec2, max: Fixed)
    ensures
        magnitude(v.limit(max).x.raw as int) <= magnitude(max.raw as int),
        magnitude(v.limit(max).y.raw as int) <= magnitude(max.raw as int),
{
    if Fixed::hypot_exceeds(v.x, v.y, max) {
        lemma_normalize_in_unit(v);
        lemma_mul_by_unit(v.normalize().x, max);
        lemma_mul_by_unit(v.normalize().y, max);
    } else {
        let x = v.x.raw as int;
        let y = v.y.raw as int;
        let m = max.raw as int;
        let a = magnitude(x) as int;
        let b = magnitude(y) as int;
        let c = magnitude(m) as int;
        assert(a * a == x * x && b * b == y * y && c * c == m * m) by (nonlinear_arith)
            requires
                a == magnitude(x),
                b == magnitude(y),
                c == magnitude(m),
        ;
        assert(a <= c) by (nonlinear_arith)
            requires
                a * a + b * b <= c * c,
                0 <= a,
                0 <= b,
                0 <= c,
        ;
        assert(b <= c) by (nonlinear_arith)
            requires
                a * a + b * b <= c * c,
                0 <= a,
                0 <= b,
                0 <= c,
        ;
    }
}

} // verus!
