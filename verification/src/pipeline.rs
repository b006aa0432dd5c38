//! The transform pipeline: the parameters of the world, view and projection
//! transforms, checked when they are set, and those of its matrices that are
//! a matter of placing the parameters.

use vstd::prelude::*;
use crate::scalar::{Scalar, ZERO_BITS, ONE_BITS, lemma_named_patterns};
use crate::vector::Vector3;
use crate::matrix::{Matrix4, same_values};
use crate::error::GeometryError;
use crate::graphical_math::{
    PersProjInfo, init_scale_transform, init_translation_transform, rotation_x_transform,
    rotation_y_transform, rotation_z_transform, camera_basis_transform, scale_rows,
    translation_rows, rotation_x_rows, rotation_y_rows, rotation_z_rows, camera_basis_rows,
};

verus! {

/// The parameters that the pipeline holds, as a plain value.
#[derive(Clone, Copy, Debug, PartialEq, Eq, Structural)]
pub struct PipelineState {
    pub scale: Vector3,
    pub world_pos: Vector3,
    /// Euler angles in degrees. The rotations compose as Z after Y after X.
    pub rotate_info: Vector3,
    /// `None` until a projection is set: the pipeline then projects by the
    /// identity.
    pub pers_proj_info: Option<PersProjInfo>,
    pub camera_pos: Vector3,
    pub camera_target: Vector3,
    pub camera_up: Vector3,
}

/// The cosine and the sine of one angle.
#[derive(Clone, Copy, Debug, PartialEq, Eq, Structural)]
pub struct AngleTrig {
    pub cos: Scalar,
    pub sin: Scalar,
}

impl AngleTrig {
    /// Cosine one and sine zero: the angle zero.
    pub open spec fn of_zero() -> AngleTrig {
        AngleTrig { cos: Scalar::from_bits(ONE_BITS), sin: Scalar::from_bits(ZERO_BITS) }
    }
}

/// The rows of the factors of the world transform, in the order in which
/// they are multiplied.
pub open spec fn world_factor_rows(
    state: PipelineState,
    x: AngleTrig,
    y: AngleTrig,
    z: AngleTrig,
) -> Seq<Seq<Seq<Scalar>>> {
    seq![
        translation_rows(state.world_pos.x, state.world_pos.y, state.world_pos.z),
        rotation_z_rows(z.cos, z.sin),
        rotation_y_rows(y.cos, y.sin),
        rotation_x_rows(x.cos, x.sin),
        scale_rows(state.scale.x, state.scale.y, state.scale.z),
    ]
}

/// The rows of the factors of the view transform, in the order in which they
/// are multiplied.
pub open spec fn view_factor_rows(
    state: PipelineState,
    right: Vector3,
    up: Vector3,
    forward: Vector3,
) -> Seq<Seq<Seq<Scalar>>> {
    seq![
        camera_basis_rows(right, up, forward),
        translation_rows(
            state.camera_pos.x.negated(),
            state.camera_pos.y.negated(),
            state.camera_pos.z.negated(),
        ),
    ]
}

impl PipelineState {
    /// The projection, if there is one, is valid, and the camera frame has a
    /// forward and an up direction.
    pub open spec fn well_formed(self) -> bool {
        &&& self.pers_proj_info matches Some(info) ==> info.is_valid()
        &&& !self.camera_target.is_zero()
        &&& !self.camera_up.is_zero()
    }

    /// Unit scale, no rotation, no translation, no projection, and a camera
    /// at the origin that looks along +Z with +Y up.
    pub open spec fn initial() -> PipelineState {
        let o = Scalar::from_bits(ZERO_BITS);
        let i = Scalar::from_bits(ONE_BITS);
        PipelineState {
            scale: Vector3::new(i, i, i),
            world_pos: Vector3::new(o, o, o),
            rotate_info: Vector3::new(o, o, o),
            pers_proj_info: None,
            camera_pos: Vector3::new(o, o, o),
            camera_target: Vector3::new(o, o, i),
            camera_up: Vector3::new(o, i, o),
        }
    }
}

/// The transform pipeline. Its view is the [`PipelineState`] it holds.
pub struct Pipeline {
    state: PipelineState,
}

impl View for Pipeline {
    type V = PipelineState;

    closed spec fn view(&self) -> PipelineState {
        self.state
    }
}

impl Pipeline {
    #[verifier::type_invariant]
    spec fn parameters_checked(self) -> bool {
        self.state.well_formed()
    }

    pub fn new() -> (pipeline: Pipeline)
        ensures
            pipeline@ == PipelineState::initial(),
    {
        let o = Scalar::from_bits(ZERO_BITS);
        let i = Scalar::from_bits(ONE_BITS);
        Pipeline {
            state: PipelineState {
                scale: Vector3::new(i, i, i),
                world_pos: Vector3::new(o, o, o),
                rotate_info: Vector3::new(o, o, o),
                pers_proj_info: None,
                camera_pos: Vector3::new(o, o, o),
                camera_target: Vector3::new(o, o, i),
                camera_up: Vector3::new(o, i, o),
            },
        }
    }

    /// The whole state.
    pub fn state(&self) -> (state: PipelineState)
        ensures
            state == self@,
            state.well_formed(),
    {
        proof {
            use_type_invariant(self);
        }
        self.state
    }

    /// Sets the scale factors of the three axes.
    pub fn scale(&mut self, scale_x: Scalar, scale_y: Scalar, scale_z: Scalar)
        ensures
            final(self)@ == (PipelineState {
                scale: Vector3::new(scale_x, scale_y, scale_z),
                ..old(self)@
            }),
    {
        proof {
            use_type_invariant(&*self);
        }
        let mut next = self.state;
        next.scale = Vector3::new(scale_x, scale_y, scale_z);
        self.state = next;
    }

    /// Sets the position of the object in the world.
    pub fn world_pos(&mut self, x: Scalar, y: Scalar, z: Scalar)
        ensures
            final(self)@ == (PipelineState { world_pos: Vector3::new(x, y, z), ..old(self)@ }),
    {
        proof {
            use_type_invariant(&*self);
        }
        let mut next = self.state;
        next.world_pos = Vector3::new(x, y, z);
        self.state = next;
    }

    /// Sets the rotation about the three axes, in degrees.
    pub fn rotate(&mut self, rotate_x: Scalar, rotate_y: Scalar, rotate_z: Scalar)
        ensures
            final(self)@ == (PipelineState {
                rotate_info: Vector3::new(rotate_x, rotate_y, rotate_z),
                ..old(self)@
            }),
    {
        proof {
            use_type_invariant(&*self);
        }
        let mut next = self.state;
        next.rotate_info = Vector3::new(rotate_x, rotate_y, rotate_z);
        self.state = next;
    }

    /// Sets the perspective projection. Parameters that are not valid are
    /// rejected and leave the pipeline as it was.
    pub fn set_perspective_proj(
        &mut self,
        fov: Scalar,
        width: Scalar,
        height: Scalar,
        z_near: Scalar,
        z_far: Scalar,
    ) -> (r: Result<(), GeometryError>)
        ensures
            ({
                let info = PersProjInfo { fov, width, height, z_near, z_far };
                match r {
                    Ok(_) => info.is_valid() && final(self)@ == (PipelineState {
                        pers_proj_info: Some(info),
                        ..old(self)@
                    }),
                    Err(e) => !info.is_valid() && e == GeometryError::InvalidProjectionParameters
                        && final(self)@ == old(self)@,
                }
            }),
    {
        proof {
            use_type_invariant(&*self);
        }
        let info = PersProjInfo { fov, width, height, z_near, z_far };
        if !info.is_valid() {
            return Err(GeometryError::InvalidProjectionParameters);
        }
        let mut next = self.state;
        next.pers_proj_info = Some(info);
        self.state = next;
        Ok(())
    }

    /// Sets the camera frame for the view transform. A `target` or an `up`
    /// of zero length has no direction: it is rejected and leaves the
    /// pipeline as it was.
    pub fn set_camera(&mut self, pos: Vector3, target: Vector3, up: Vector3) -> (r: Result<
        (),
        GeometryError,
    >)
        ensures
            match r {
                Ok(_) => !target.is_zero() && !up.is_zero() && final(self)@ == (PipelineState {
                    camera_pos: pos,
                    camera_target: target,
                    camera_up: up,
                    ..old(self)@
                }),
                Err(e) => (target.is_zero() || up.is_zero()) && e
                    == GeometryError::DegenerateCameraFrame && final(self)@ == old(self)@,
            },
    {
        proof {
            use_type_invariant(&*self);
        }
        if target.is_zero() || up.is_zero() {
            return Err(GeometryError::DegenerateCameraFrame);
        }
        let mut next = self.state;
        next.camera_pos = pos;
        next.camera_target = target;
        next.camera_up = up;
        self.state = next;
        Ok(())
    }

    /// The factors of the world transform, in the order in which they are
    /// multiplied: translation, rotation about z, about y, about x, scale. A
    /// vertex is therefore scaled first, then rotated about x, y and z, then
    /// moved. The caller supplies the cosine and sine of each stored angle.
    pub fn world_factors(&self, x: AngleTrig, y: AngleTrig, z: AngleTrig) -> (factors: [Matrix4; 5])
        ensures
            factors[0]@ == world_factor_rows(self@, x, y, z)[0],
            factors[1]@ == world_factor_rows(self@, x, y, z)[1],
            factors[2]@ == world_factor_rows(self@, x, y, z)[2],
            factors[3]@ == world_factor_rows(self@, x, y, z)[3],
            factors[4]@ == world_factor_rows(self@, x, y, z)[4],
    {
        [
            init_translation_transform(
                self.state.world_pos.x,
                self.state.world_pos.y,
                self.state.world_pos.z,
            ),
            rotation_z_transform(z.cos, z.sin),
            rotation_y_transform(y.cos, y.sin),
            rotation_x_transform(x.cos, x.sin),
            init_scale_transform(self.state.scale.x, self.state.scale.y, self.state.scale.z),
        ]
    }

    /// The factors of the view transform, in the order in which they are
    /// multiplied: the change of basis into the camera frame, then the
    /// translation that moves the camera position to the origin. The caller
    /// supplies the orthonormal axes built from the stored target and up.
    pub fn view_factors(&self, right: Vector3, up: Vector3, forward: Vector3) -> (factors: [Matrix4; 2])
        ensures
            factors[0]@ == view_factor_rows(self@, right, up, forward)[0],
            factors[1]@ == view_factor_rows(self@, right, up, forward)[1],
    {
        let moved = self.state.camera_pos.negated();
        [
            camera_basis_transform(right, up, forward),
            init_translation_transform(moved.x, moved.y, moved.z),
        ]
    }
}

/// With unit scale and no translation, the first and the last factor of the
/// world transform are the identity, whatever the rotation: what remains is
/// the rotation about z, then y, then x, in that order of multiplication.
pub proof fn lemma_world_factors_of_pure_rotation(
    state: PipelineState,
    x: AngleTrig,
    y: AngleTrig,
    z: AngleTrig,
)
    requires
        state.scale == PipelineState::initial().scale,
        state.world_pos == PipelineState::initial().world_pos,
    ensures
        world_factor_rows(state, x, y, z) =~~= seq![
            Matrix4::identity_rows(),
            rotation_z_rows(z.cos, z.sin),
            rotation_y_rows(y.cos, y.sin),
            rotation_x_rows(x.cos, x.sin),
            Matrix4::identity_rows(),
        ],
{
}

/// With unit scale and all three angles zero, every factor of the world
/// transform but the translation has the values of the identity.
pub proof fn lemma_world_factors_of_pure_translation(state: PipelineState)
    requires
        state.scale == PipelineState::initial().scale,
    ensures
        ({
            let rows = world_factor_rows(
                state,
                AngleTrig::of_zero(),
                AngleTrig::of_zero(),
                AngleTrig::of_zero(),
            );
            &&& rows[0] == translation_rows(state.world_pos.x, state.world_pos.y, state.world_pos.z)
            &&& same_values(rows[1], Matrix4::identity_rows())
            &&& same_values(rows[2], Matrix4::identity_rows())
            &&& same_values(rows[3], Matrix4::identity_rows())
            &&& same_values(rows[4], Matrix4::identity_rows())
        }),
{
    lemma_named_patterns();
    let o = Scalar::from_bits(ZERO_BITS);
    o.lemma_negated();
}

} // verus!
