//! The ways in which a request to the pipeline or the camera is rejected.

use vstd::prelude::*;

verus! {

#[derive(Clone, Copy, Debug, PartialEq, Eq, Structural)]
pub enum GeometryError {
    /// The viewport height is zero, the near and far planes coincide, or the
    /// field of view lies outside the open interval from 0 to 180 degrees.
    InvalidProjectionParameters,
    /// A camera direction of zero length was supplied.
    DegenerateCameraFrame,
}

} // verus!
