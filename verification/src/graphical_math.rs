//! The matrices of the transform pipeline, as far as they are a matter of
//! placing values: each function writes a transform down row by row and
//! converts it once into column-major storage.

use vstd::prelude::*;
use vstd::arithmetic::power2::{pow2, lemma_pow2_pos};
use crate::scalar::{Scalar, ZERO_BITS, ONE_BITS, HALF_TURN_BITS, lemma_named_patterns};
use crate::vector::Vector3;
use crate::matrix::Matrix4;

verus! {

/// Parameters of a perspective projection. Angles are in degrees.
#[derive(Clone, Copy, Debug, PartialEq, Eq, Structural)]
pub struct PersProjInfo {
    pub fov: Scalar,
    pub width: Scalar,
    pub height: Scalar,
    pub z_near: Scalar,
    pub z_far: Scalar,
}

impl PersProjInfo {
    /// The field of view lies strictly between 0 and 180 degrees, the
    /// viewport height is not zero, and the near and far planes differ.
    pub open spec fn spec_is_valid(self) -> bool {
        &&& !self.fov.is_nan()
        &&& 0 < self.fov.scaled() < 180 * pow2(149)
        &&& !self.height.is_zero()
        &&& !self.z_near.same_value(self.z_far)
    }

    /// Whether a projection matrix built from these parameters is free of
    /// divisions by zero.
    #[verifier::when_used_as_spec(spec_is_valid)]
    pub fn is_valid(self) -> (r: bool)
        ensures
            r == self.spec_is_valid(),
    {
        proof {
            lemma_named_patterns();
            lemma_pow2_pos(149);
            assert(0 * pow2(149) == 0) by (nonlinear_arith);
        }
        let zero = Scalar::from_bits(ZERO_BITS);
        let half_turn = Scalar::from_bits(HALF_TURN_BITS);
        zero.less(self.fov) && self.fov.less(half_turn) && !self.height.is_zero()
            && !self.z_near.same_value(self.z_far)
    }
}

/// Rows of the transform that scales the three axes.
pub open spec fn scale_rows(x: Scalar, y: Scalar, z: Scalar) -> Seq<Seq<Scalar>> {
    let o = Scalar::from_bits(ZERO_BITS);
    let i = Scalar::from_bits(ONE_BITS);
    seq![seq![x, o, o, o], seq![o, y, o, o], seq![o, o, z, o], seq![o, o, o, i]]
}

/// Rows of the transform that moves the origin to `(x, y, z)`.
pub open spec fn translation_rows(x: Scalar, y: Scalar, z: Scalar) -> Seq<Seq<Scalar>> {
    let o = Scalar::from_bits(ZERO_BITS);
    let i = Scalar::from_bits(ONE_BITS);
    seq![seq![i, o, o, x], seq![o, i, o, y], seq![o, o, i, z], seq![o, o, o, i]]
}

/// The transform that scales the three axes by the given factors.
pub fn init_scale_transform(scale_x: Scalar, scale_y: Scalar, scale_z: Scalar) -> (m: Matrix4)
    ensures
        m@ == scale_rows(scale_x, scale_y, scale_z),
{
    let o = Scalar::from_bits(ZERO_BITS);
    let i = Scalar::from_bits(ONE_BITS);
    let m = Matrix4::from_row_major(
        [[scale_x, o, o, o], [o, scale_y, o, o], [o, o, scale_z, o], [o, o, o, i]],
    );
    assert(m@ =~~= scale_rows(scale_x, scale_y, scale_z));
    m
}

/// The transform that moves the origin to `(x, y, z)`.
pub fn init_translation_transform(x: Scalar, y: Scalar, z: Scalar) -> (m: Matrix4)
    ensures
        m@ == translation_rows(x, y, z),
{
    let o = Scalar::from_bits(ZERO_BITS);
    let i = Scalar::from_bits(ONE_BITS);
    let m = Matrix4::from_row_major([[i, o, o, x], [o, i, o, y], [o, o, i, z], [o, o, o, i]]);
    assert(m@ =~~= translation_rows(x, y, z));
    m
}

/// Rows of the rotation about the x axis by the angle with the given cosine
/// and sine.
pub open spec fn rotation_x_rows(cos: Scalar, sin: Scalar) -> Seq<Seq<Scalar>> {
    let o = Scalar::from_bits(ZERO_BITS);
    let i = Scalar::from_bits(ONE_BITS);
    seq![seq![i, o, o, o], seq![o, cos, sin.negated(), o], seq![o, sin, cos, o], seq![o, o, o, i]]
}

/// Rows of the rotation about the y axis by the angle with the given cosine
/// and sine.
pub open spec fn rotation_y_rows(cos: Scalar, sin: Scalar) -> Seq<Seq<Scalar>> {
    let o = Scalar::from_bits(ZERO_BITS);
    let i = Scalar::from_bits(ONE_BITS);
    seq![seq![cos, o, sin.negated(), o], seq![o, i, o, o], seq![sin, o, cos, o], seq![o, o, o, i]]
}

/// Rows of the rotation about the z axis by the angle with the given cosine
/// and sine.
pub open spec fn rotation_z_rows(cos: Scalar, sin: Scalar) -> Seq<Seq<Scalar>> {
    let o = Scalar::from_bits(ZERO_BITS);
    let i = Scalar::from_bits(ONE_BITS);
    seq![seq![cos, sin.negated(), o, o], seq![sin, cos, o, o], seq![o, o, i, o], seq![o, o, o, i]]
}

/// Rows of a perspective projection with the given scale factors for x and
/// y and the given depth mapping. The last row copies the depth into the
/// fourth coordinate, which drives the perspective divide.
pub open spec fn perspective_rows(
    x_scale: Scalar,
    y_scale: Scalar,
    z_scale: Scalar,
    z_offset: Scalar,
) -> Seq<Seq<Scalar>> {
    let o = Scalar::from_bits(ZERO_BITS);
    let i = Scalar::from_bits(ONE_BITS);
    seq![
        seq![x_scale, o, o, o],
        seq![o, y_scale, o, o],
        seq![o, o, z_scale, z_offset],
        seq![o, o, i, o],
    ]
}

/// Rows of the change of basis into a camera frame: the three axes are the
/// first three rows.
pub open spec fn camera_basis_rows(right: Vector3, up: Vector3, forward: Vector3) -> Seq<
    Seq<Scalar>,
> {
    let o = Scalar::from_bits(ZERO_BITS);
    let i = Scalar::from_bits(ONE_BITS);
    seq![
        seq![right.x, right.y, right.z, o],
        seq![up.x, up.y, up.z, o],
        seq![forward.x, forward.y, forward.z, o],
        seq![o, o, o, i],
    ]
}

/// The rotation about the x axis, from the cosine and sine of its angle.
pub fn rotation_x_transform(cos: Scalar, sin: Scalar) -> (m: Matrix4)
    ensures
        m@ == rotation_x_rows(cos, sin),
{
    let o = Scalar::from_bits(ZERO_BITS);
    let i = Scalar::from_bits(ONE_BITS);
    let m = Matrix4::from_row_major(
        [[i, o, o, o], [o, cos, sin.negated(), o], [o, sin, cos, o], [o, o, o, i]],
    );
    assert(m@ =~~= rotation_x_rows(cos, sin));
    m
}

/// The rotation about the y axis, from the cosine and sine of its angle.
pub fn rotation_y_transform(cos: Scalar, sin: Scalar) -> (m: Matrix4)
    ensures
        m@ == rotation_y_rows(cos, sin),
{
    let o = Scalar::from_bits(ZERO_BITS);
    let i = Scalar::from_bits(ONE_BITS);
    let m = Matrix4::from_row_major(
        [[cos, o, sin.negated(), o], [o, i, o, o], [sin, o, cos, o], [o, o, o, i]],
    );
    assert(m@ =~~= rotation_y_rows(cos, sin));
    m
}

/// The rotation about the z axis, from the cosine and sine of its angle.
pub fn rotation_z_transform(cos: Scalar, sin: Scalar) -> (m: Matrix4)
    ensures
        m@ == rotation_z_rows(cos, sin),
{
    let o = Scalar::from_bits(ZERO_BITS);
    let i = Scalar::from_bits(ONE_BITS);
    let m = Matrix4::from_row_major(
        [[cos, sin.negated(), o, o], [sin, cos, o, o], [o, o, i, o], [o, o, o, i]],
    );
    assert(m@ =~~= rotation_z_rows(cos, sin));
    m
}

/// The perspective projection with the given four computed entries.
pub fn perspective_transform(
    x_scale: Scalar,
    y_scale: Scalar,
    z_scale: Scalar,
    z_offset: Scalar,
) -> (m: Matrix4)
    ensures
        m@ == perspective_rows(x_scale, y_scale, z_scale, z_offset),
{
    let o = Scalar::from_bits(ZERO_BITS);
    let i = Scalar::from_bits(ONE_BITS);
    let m = Matrix4::from_row_major(
        [[x_scale, o, o, o], [o, y_scale, o, o], [o, o, z_scale, z_offset], [o, o, i, o]],
    );
    assert(m@ =~~= perspective_rows(x_scale, y_scale, z_scale, z_offset));
    m
}

/// The change of basis into the camera frame with the given axes.
pub fn camera_basis_transform(right: Vector3, up: Vector3, forward: Vector3) -> (m: Matrix4)
    ensures
        m@ == camera_basis_rows(right, up, forward),
{
    let o = Scalar::from_bits(ZERO_BITS);
    let i = Scalar::from_bits(ONE_BITS);
    let m = Matrix4::from_row_major(
        [
            [right.x, right.y, right.z, o],
            [up.x, up.y, up.z, o],
            [forward.x, forward.y, forward.z, o],
            [o, o, o, i],
        ],
    );
    assert(m@ =~~= camera_basis_rows(right, up, forward));
    m
}

} // verus!
