//! Planar vectors over [`Scalar`].
use crate::scalar::Scalar;
use vstd::prelude::*;

verus! {

/// A point or a displacement in the plane.
#[derive(Clone, Copy, Debug, PartialEq, Eq, Structural)]
pub struct Vec2 {
    pub x: Scalar,
    pub y: Scalar,
}

impl View for Vec2 {
    type V = (int, int);

    /// Both coordinates in millionths.
    open spec fn view(&self) -> (int, int) {
        (self.x@, self.y@)
    }
}

impl Default for Vec2 {
    fn default() -> (r: Vec2)
        ensures
            r == Vec2::spec_zero(),
    {
        Vec2 { x: Scalar::zero(), y: Scalar::zero() }
    }
}

impl Vec2 {
    pub open spec fn spec_zero() -> Vec2 {
        Vec2 { x: Scalar::zero(), y: Scalar::zero() }
    }

    /// The coordinate-wise sum.
    pub open spec fn plus(self, rhs: Vec2) -> Vec2 {
        Vec2 { x: self.x.plus(rhs.x), y: self.y.plus(rhs.y) }
    }

    /// The coordinate-wise difference.
    pub open spec fn minus(self, rhs: Vec2) -> Vec2 {
        Vec2 { x: self.x.minus(rhs.x), y: self.y.minus(rhs.y) }
    }

    /// Both coordinates multiplied by `factor`.
    pub open spec fn scaled(self, factor: Scalar) -> Vec2 {
        Vec2 { x: self.x.times(factor), y: self.y.times(factor) }
    }

    /// The point reached from `self` after the fraction `amount` of the way to
    /// `target`.
    pub open spec fn toward(self, target: Vec2, amount: Scalar) -> Vec2 {
        self.plus(target.minus(self).scaled(amount))
    }

    pub fn new(x: Scalar, y: Scalar) -> (r: Vec2)
        ensures
            r == (Vec2 { x, y }),
    {
        Vec2 { x, y }
    }

    #[verifier::when_used_as_spec(spec_zero)]
    pub fn zero() -> (r: Vec2)
        ensures
            r == Vec2::spec_zero(),
    {
        Vec2 { x: Scalar::zero(), y: Scalar::zero() }
    }

    pub fn saturating_add(self, rhs: Vec2) -> (r: Vec2)
        ensures
            r == self.plus(rhs),
    {
        Vec2 { x: self.x.saturating_add(rhs.x), y: self.y.saturating_add(rhs.y) }
    }

    pub fn saturating_sub(self, rhs: Vec2) -> (r: Vec2)
        ensures
            r == self.minus(rhs),
    {
        Vec2 { x: self.x.saturating_sub(rhs.x), y: self.y.saturating_sub(rhs.y) }
    }

    pub fn scale(self, factor: Scalar) -> (r: Vec2)
        ensures
            r == self.scaled(factor),
    {
        Vec2 { x: self.x.saturating_mul(factor), y: self.y.saturating_mul(factor) }
    }

    /// The point the fraction `amount` of the way from `self` to `target`.
    /// The fraction is taken as it is: below zero the point lies behind
    /// `self`, above one beyond `target`.
    pub fn lerp(self, target: Vec2, amount: Scalar) -> (r: Vec2)
        ensures
            r == self.toward(target, amount),
    {
        self.saturating_add(target.saturating_sub(self).scale(amount))
    }
}

} // verus!
