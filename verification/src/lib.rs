//! The geometric core of an interactive 3D scene: a transform pipeline that
//! holds the parameters of the world, view and projection transforms, and a
//! camera controller that turns key, cursor and frame events into motions and
//! turns of the viewpoint.
//!
//! Values are single-precision numbers held as bit patterns, see [`Scalar`].
//! The library stores, places, negates and orders them exactly; sums,
//! products and trigonometry are left to the caller.

pub mod scalar;
pub mod vector;
pub mod matrix;
pub mod error;
pub mod graphical_math;
pub mod pipeline;
pub mod camera;

pub use scalar::Scalar;
pub use vector::Vector3;
pub use matrix::Matrix4;
pub use error::GeometryError;
pub use graphical_math::{
    PersProjInfo, init_scale_transform, init_translation_transform, rotation_x_transform,
    rotation_y_transform, rotation_z_transform, perspective_transform, camera_basis_transform,
};
pub use pipeline::{Pipeline, PipelineState, AngleTrig};
pub use camera::{Camera, CameraState, Key, Heading, Motion, Turn, YawRule, yaw_rule};
