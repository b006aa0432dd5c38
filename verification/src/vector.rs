//! Three-component vectors of single-precision values.

use vstd::prelude::*;
use crate::scalar::Scalar;

verus! {

/// A position, a direction, a triple of scale factors or a triple of Euler
/// angles in degrees.
#[derive(Clone, Copy, Debug, PartialEq, Eq, Structural)]
pub struct Vector3 {
    pub x: Scalar,
    pub y: Scalar,
    pub z: Scalar,
}

impl Vector3 {
    pub open spec fn spec_new(x: Scalar, y: Scalar, z: Scalar) -> Vector3 {
        Vector3 { x, y, z }
    }

    #[verifier::when_used_as_spec(spec_new)]
    pub fn new(x: Scalar, y: Scalar, z: Scalar) -> (v: Vector3)
        ensures
            v == Vector3::spec_new(x, y, z),
    {
        Vector3 { x, y, z }
    }

    /// A vector has zero length exactly when each component is zero, of
    /// either sign.
    pub open spec fn spec_is_zero(self) -> bool {
        self.x.is_zero() && self.y.is_zero() && self.z.is_zero()
    }

    /// Whether the vector has zero length and therefore no direction.
    #[verifier::when_used_as_spec(spec_is_zero)]
    pub fn is_zero(self) -> (r: bool)
        ensures
            r == self.spec_is_zero(),
    {
        self.x.is_zero() && self.y.is_zero() && self.z.is_zero()
    }

    pub open spec fn spec_negated(self) -> Vector3 {
        Vector3 { x: self.x.negated(), y: self.y.negated(), z: self.z.negated() }
    }

    /// The opposite vector: each component with its sign flipped.
    #[verifier::when_used_as_spec(spec_negated)]
    pub fn negated(self) -> (v: Vector3)
        ensures
            v == self.spec_negated(),
    {
        Vector3 { x: self.x.negated(), y: self.y.negated(), z: self.z.negated() }
    }
}

} // verus!
