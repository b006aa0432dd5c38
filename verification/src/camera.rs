//! The camera controller: a state machine over position, orientation, cursor
//! and the four edge flags.
//!
//! Every handler decides what happens and reports it in exact units. The
//! rounding arithmetic that the decision calls for (adding an angle, moving
//! along a direction, rebuilding the basis from the two angles) is done by the
//! caller, who hands the results back through [`Camera::set_orientation`] and
//! [`Camera::set_pos`].

use vstd::prelude::*;
use vstd::arithmetic::power2::pow2;
use crate::scalar::{
    Scalar, ZERO_BITS, ONE_BITS, QUARTER_TURN_BITS, NEG_QUARTER_TURN_BITS, HALF_TURN_BITS,
    FULL_TURN_BITS, lemma_named_patterns,
};
use crate::vector::Vector3;
use crate::error::GeometryError;

verus! {

/// Pattern of `0.2`, the distance covered by one key press.
pub const STEP_SCALE_BITS: u32 = 0x3e4c_cccd;

/// Pattern of `-0.2`.
pub const NEG_STEP_SCALE_BITS: u32 = 0xbe4c_cccd;

/// Pattern of `270.0`, the yaw of a camera that looks along +Z.
pub const DEFAULT_YAW_BITS: u32 = 0x4387_0000;

/// Pattern of `-0.0`, the pitch of a camera that looks along +Z.
pub const DEFAULT_PITCH_BITS: u32 = 0x8000_0000;

/// Width in pixels of the band along each viewport edge in which a resting
/// cursor starts the rotation.
pub const MARGIN: i32 = 10;

/// A [`Turn`] counts in twentieths of a degree: one pixel of cursor travel
/// turns the camera by one unit.
pub const TURN_UNITS_PER_DEGREE: i64 = 20;

/// Units by which the camera turns per frame while the cursor rests at an
/// edge: a tenth of a degree.
pub const EDGE_TURN: i64 = 2;

/// The keys that the controller tells apart.
#[derive(Clone, Copy, Debug, PartialEq, Eq, Structural)]
pub enum Key {
    Up,
    Down,
    Left,
    Right,
    Other,
}

/// The direction of a motion, in terms of the camera frame. A cross product
/// is to be normalized before it is scaled.
#[derive(Clone, Copy, Debug, PartialEq, Eq, Structural)]
pub enum Heading {
    /// Along the target vector.
    Target,
    /// Along `target × up`.
    TargetCrossUp,
    /// Along `up × target`.
    UpCrossTarget,
}

/// A displacement of the camera position: `distance` times the unit vector
/// of `heading` is to be added to the position.
#[derive(Clone, Copy, Debug, PartialEq, Eq, Structural)]
pub struct Motion {
    pub heading: Heading,
    pub distance: Scalar,
}

/// A change of the two orientation angles, in twentieths of a degree.
#[derive(Clone, Copy, Debug, PartialEq, Eq, Structural)]
pub struct Turn {
    pub yaw: i64,
    pub pitch: i64,
}

impl Turn {
    pub open spec fn spec_is_still(self) -> bool {
        self.yaw == 0 && self.pitch == 0
    }

    /// Whether the turn leaves both angles as they are.
    #[verifier::when_used_as_spec(spec_is_still)]
    pub fn is_still(self) -> (r: bool)
        ensures
            r == self.spec_is_still(),
    {
        self.yaw == 0 && self.pitch == 0
    }
}

/// How the yaw follows from the horizontal part of a forward vector: the
/// arcsine of the magnitude of its z component, in degrees, is added to
/// `base` if `rising`, and subtracted from it otherwise.
#[derive(Clone, Copy, Debug, PartialEq, Eq, Structural)]
pub struct YawRule {
    pub base: Scalar,
    pub rising: bool,
}

/// The quadrant rule as a function of the two sign tests.
pub open spec fn spec_yaw_rule(h_x: Scalar, h_z: Scalar) -> YawRule {
    let x_forward = !h_x.is_nan() && h_x.scaled() >= 0;
    let z_forward = !h_z.is_nan() && h_z.scaled() >= 0;
    if x_forward {
        if z_forward {
            YawRule { base: Scalar::from_bits(FULL_TURN_BITS), rising: false }
        } else {
            YawRule { base: Scalar::from_bits(ZERO_BITS), rising: true }
        }
    } else {
        YawRule { base: Scalar::from_bits(HALF_TURN_BITS), rising: z_forward }
    }
}

/// Resolves the quadrant of a normalized horizontal forward vector
/// `(h_x, 0, h_z)`.
///
/// The arcsine alone cannot tell a direction from its mirror image across
/// the z axis; the sign of `h_x` decides between them. With the yaw measured
/// so that 0 degrees looks along +X and 270 degrees along +Z, the yaw is
/// `360 - a` for `x >= 0, z >= 0`, `a` for `x >= 0, z < 0`, `180 + a` for
/// `x < 0, z >= 0` and `180 - a` for `x < 0, z < 0`, where `a` is the arcsine
/// of `|h_z|` in degrees.
#[verifier::when_used_as_spec(spec_yaw_rule)]
pub fn yaw_rule(h_x: Scalar, h_z: Scalar) -> (rule: YawRule)
    ensures
        rule == spec_yaw_rule(h_x, h_z),
{
    proof {
        lemma_named_patterns();
        assert(0 * pow2(149) == 0) by (nonlinear_arith);
    }
    let zero = Scalar::from_bits(ZERO_BITS);
    let x_forward = zero.at_most(h_x);
    let z_forward = zero.at_most(h_z);
    if x_forward {
        if z_forward {
            YawRule { base: Scalar::from_bits(FULL_TURN_BITS), rising: false }
        } else {
            YawRule { base: Scalar::from_bits(ZERO_BITS), rising: true }
        }
    } else {
        YawRule { base: Scalar::from_bits(HALF_TURN_BITS), rising: z_forward }
    }
}

/// The two flags of one axis after a cursor event on that axis.
///
/// `delta` is the cursor travel along the axis, `at` the new coordinate and
/// `extent` the viewport size along the axis. Any travel clears both flags.
/// A cursor at rest within the margin of the low edge sets `low` and clears
/// `high`; one within the margin of the high edge does the opposite; where
/// both margins overlap the low edge wins. A cursor at rest elsewhere leaves
/// the flags as they are.
pub open spec fn edge_flags_after(low: bool, high: bool, delta: int, at: int, extent: int) -> (
    bool,
    bool,
) {
    if delta != 0 {
        (false, false)
    } else if at <= MARGIN {
        (true, false)
    } else if at >= extent - MARGIN {
        (false, true)
    } else {
        (low, high)
    }
}

/// Everything the controller knows, as a plain value.
#[derive(Clone, Copy, Debug, PartialEq, Eq, Structural)]
pub struct CameraState {
    pub pos: Vector3,
    /// The forward direction, of unit length.
    pub target: Vector3,
    /// The up direction, of unit length.
    pub up: Vector3,
    pub window_width: u32,
    pub window_height: u32,
    /// Yaw in degrees.
    pub angle_h: Scalar,
    /// Pitch in degrees.
    pub angle_v: Scalar,
    pub on_upper_edge: bool,
    pub on_lower_edge: bool,
    pub on_left_edge: bool,
    pub on_right_edge: bool,
    pub mouse_x: i32,
    pub mouse_y: i32,
}

impl CameraState {
    /// No two opposite edge flags are set together.
    pub open spec fn edges_exclusive(self) -> bool {
        &&& !(self.on_left_edge && self.on_right_edge)
        &&& !(self.on_upper_edge && self.on_lower_edge)
    }

    /// The state in which a session starts: no edge flag set and the cursor
    /// in the centre of the viewport.
    pub open spec fn initial(
        window_width: u32,
        window_height: u32,
        pos: Vector3,
        target: Vector3,
        up: Vector3,
        angle_h: Scalar,
        angle_v: Scalar,
    ) -> CameraState {
        CameraState {
            pos,
            target,
            up,
            window_width,
            window_height,
            angle_h,
            angle_v,
            on_upper_edge: false,
            on_lower_edge: false,
            on_left_edge: false,
            on_right_edge: false,
            mouse_x: (window_width / 2) as i32,
            mouse_y: (window_height / 2) as i32,
        }
    }

    /// The turn that a cursor event at `(x, y)` asks for: the cursor travel,
    /// one unit per pixel.
    pub open spec fn mouse_turn(self, x: i32, y: i32) -> Turn {
        Turn { yaw: (x - self.mouse_x) as i64, pitch: (y - self.mouse_y) as i64 }
    }

    /// The state after a cursor event at `(x, y)`, before the caller has
    /// applied the turn.
    pub open spec fn after_mouse(self, x: i32, y: i32) -> CameraState {
        let horizontal = edge_flags_after(
            self.on_left_edge,
            self.on_right_edge,
            x - self.mouse_x,
            x as int,
            self.window_width as int,
        );
        let vertical = edge_flags_after(
            self.on_upper_edge,
            self.on_lower_edge,
            y - self.mouse_y,
            y as int,
            self.window_height as int,
        );
        CameraState {
            mouse_x: x,
            mouse_y: y,
            on_left_edge: horizontal.0,
            on_right_edge: horizontal.1,
            on_upper_edge: vertical.0,
            on_lower_edge: vertical.1,
            ..self
        }
    }

    /// The turn that one frame asks for.
    ///
    /// The left flag turns the yaw down by [`EDGE_TURN`], the right flag up.
    /// The upper flag turns the pitch down as long as it is above -90
    /// degrees, the lower flag up as long as it is below 90 degrees. A pitch
    /// that is a NaN is neither.
    pub open spec fn tick_turn(self) -> Turn {
        let yaw: int = if self.on_left_edge {
            -EDGE_TURN
        } else if self.on_right_edge {
            EDGE_TURN as int
        } else {
            0
        };
        let pitch: int = if self.on_upper_edge && !self.angle_v.is_nan() && self.angle_v.scaled()
            > -90 * pow2(149) {
            -EDGE_TURN
        } else if !self.on_upper_edge && self.on_lower_edge && !self.angle_v.is_nan()
            && self.angle_v.scaled() < 90 * pow2(149) {
            EDGE_TURN as int
        } else {
            0
        };
        Turn { yaw: yaw as i64, pitch: pitch as i64 }
    }
}

/// What a key asks for: the four directional keys move the camera by
/// [`STEP_SCALE_BITS`] forward, backward, to the left and to the right; every
/// other key asks for nothing.
pub open spec fn motion_for(key: Key) -> Option<Motion> {
    match key {
        Key::Up => Some(
            Motion { heading: Heading::Target, distance: Scalar::from_bits(STEP_SCALE_BITS) },
        ),
        Key::Down => Some(
            Motion { heading: Heading::Target, distance: Scalar::from_bits(NEG_STEP_SCALE_BITS) },
        ),
        Key::Left => Some(
            Motion {
                heading: Heading::TargetCrossUp,
                distance: Scalar::from_bits(STEP_SCALE_BITS),
            },
        ),
        Key::Right => Some(
            Motion {
                heading: Heading::UpCrossTarget,
                distance: Scalar::from_bits(STEP_SCALE_BITS),
            },
        ),
        Key::Other => None,
    }
}

/// A cursor event never leaves two opposite edge flags set.
pub proof fn lemma_mouse_keeps_edges_exclusive(state: CameraState, x: i32, y: i32)
    requires
        state.edges_exclusive(),
    ensures
        state.after_mouse(x, y).edges_exclusive(),
{
}

/// A cursor event that moves the cursor along an axis, or finds it resting at
/// an edge of that axis, leaves the flags of the axis exclusive whatever they
/// were before.
pub proof fn lemma_mouse_settles_edges(state: CameraState, x: i32, y: i32)
    ensures
        x != state.mouse_x || x <= MARGIN || x >= state.window_width - MARGIN ==> !(
        state.after_mouse(x, y).on_left_edge && state.after_mouse(x, y).on_right_edge),
        y != state.mouse_y || y <= MARGIN || y >= state.window_height - MARGIN ==> !(
        state.after_mouse(x, y).on_upper_edge && state.after_mouse(x, y).on_lower_edge),
{
}

/// The camera controller. Its view is the [`CameraState`] it holds.
pub struct Camera {
    state: CameraState,
}

impl View for Camera {
    type V = CameraState;

    closed spec fn view(&self) -> CameraState {
        self.state
    }
}

impl Camera {
    #[verifier::type_invariant]
    spec fn edges_settled(self) -> bool {
        self.state.edges_exclusive()
    }

    /// A camera at the origin that looks along +Z with +Y up.
    pub fn default(window_width: u32, window_height: u32) -> (camera: Camera)
        ensures
            camera@ == CameraState::initial(
                window_width,
                window_height,
                Vector3::new(
                    Scalar::from_bits(ZERO_BITS),
                    Scalar::from_bits(ZERO_BITS),
                    Scalar::from_bits(ZERO_BITS),
                ),
                Vector3::new(
                    Scalar::from_bits(ZERO_BITS),
                    Scalar::from_bits(ZERO_BITS),
                    Scalar::from_bits(ONE_BITS),
                ),
                Vector3::new(
                    Scalar::from_bits(ZERO_BITS),
                    Scalar::from_bits(ONE_BITS),
                    Scalar::from_bits(ZERO_BITS),
                ),
                Scalar::from_bits(DEFAULT_YAW_BITS),
                Scalar::from_bits(DEFAULT_PITCH_BITS),
            ),
    {
        let o = Scalar::from_bits(ZERO_BITS);
        let i = Scalar::from_bits(ONE_BITS);
        Camera {
            state: CameraState {
                pos: Vector3::new(o, o, o),
                target: Vector3::new(o, o, i),
                up: Vector3::new(o, i, o),
                window_width,
                window_height,
                angle_h: Scalar::from_bits(DEFAULT_YAW_BITS),
                angle_v: Scalar::from_bits(DEFAULT_PITCH_BITS),
                on_upper_edge: false,
                on_lower_edge: false,
                on_left_edge: false,
                on_right_edge: false,
                mouse_x: (window_width / 2) as i32,
                mouse_y: (window_height / 2) as i32,
            },
        }
    }

    /// A camera with the given pose. `target` is the forward direction,
    /// already of unit length, and `angle_h` and `angle_v` are the yaw and
    /// the pitch that belong to it. A `target` or an `up` of zero length has
    /// no direction and is rejected.
    pub fn new(
        window_width: u32,
        window_height: u32,
        pos: Vector3,
        target: Vector3,
        up: Vector3,
        angle_h: Scalar,
        angle_v: Scalar,
    ) -> (r: Result<Camera, GeometryError>)
        ensures
            match r {
                Ok(camera) => !target.is_zero() && !up.is_zero() && camera@
                    == CameraState::initial(
                    window_width,
                    window_height,
                    pos,
                    target,
                    up,
                    angle_h,
                    angle_v,
                ),
                Err(e) => (target.is_zero() || up.is_zero()) && e
                    == GeometryError::DegenerateCameraFrame,
            },
    {
        if target.is_zero() || up.is_zero() {
            return Err(GeometryError::DegenerateCameraFrame);
        }
        Ok(
            Camera {
                state: CameraState {
                    pos,
                    target,
                    up,
                    window_width,
                    window_height,
                    angle_h,
                    angle_v,
                    on_upper_edge: false,
                    on_lower_edge: false,
                    on_left_edge: false,
                    on_right_edge: false,
                    mouse_x: (window_width / 2) as i32,
                    mouse_y: (window_height / 2) as i32,
                },
            },
        )
    }

    /// The whole state.
    pub fn state(&self) -> (state: CameraState)
        ensures
            state == self@,
            state.edges_exclusive(),
    {
        proof {
            use_type_invariant(self);
        }
        self.state
    }

    pub fn get_pos(&self) -> (pos: Vector3)
        ensures
            pos == self@.pos,
    {
        self.state.pos
    }

    pub fn get_target(&self) -> (target: Vector3)
        ensures
            target == self@.target,
    {
        self.state.target
    }

    pub fn get_up(&self) -> (up: Vector3)
        ensures
            up == self@.up,
    {
        self.state.up
    }

    /// Decides what a key press does to the position. `None` means that the
    /// key is not handled. The caller moves the camera as the motion says and
    /// stores the new position with [`Camera::set_pos`].
    pub fn on_key_board(&self, key: Key) -> (motion: Option<Motion>)
        ensures
            motion == motion_for(key),
    {
        match key {
            Key::Up => Some(
                Motion { heading: Heading::Target, distance: Scalar::from_bits(STEP_SCALE_BITS) },
            ),
            Key::Down => Some(
                Motion {
                    heading: Heading::Target,
                    distance: Scalar::from_bits(NEG_STEP_SCALE_BITS),
                },
            ),
            Key::Left => Some(
                Motion {
                    heading: Heading::TargetCrossUp,
                    distance: Scalar::from_bits(STEP_SCALE_BITS),
                },
            ),
            Key::Right => Some(
                Motion {
                    heading: Heading::UpCrossTarget,
                    distance: Scalar::from_bits(STEP_SCALE_BITS),
                },
            ),
            Key::Other => None,
        }
    }

    /// Records a cursor event at `(x, y)`: stores the cursor, settles the
    /// edge flags and returns the turn that the cursor travel asks for. The
    /// caller adds the turn to the angles, rebuilds the basis and stores both
    /// with [`Camera::set_orientation`].
    pub fn on_mouse(&mut self, x: i32, y: i32) -> (turn: Turn)
        ensures
            final(self)@ == old(self)@.after_mouse(x, y),
            turn == old(self)@.mouse_turn(x, y),
            final(self)@.edges_exclusive(),
    {
        proof {
            use_type_invariant(&*self);
        }
        let delta_x: i64 = x as i64 - self.state.mouse_x as i64;
        let delta_y: i64 = y as i64 - self.state.mouse_y as i64;
        let mut next = self.state;
        next.mouse_x = x;
        next.mouse_y = y;
        if delta_x == 0 {
            if x <= MARGIN {
                next.on_left_edge = true;
                next.on_right_edge = false;
            } else if x as i64 >= self.state.window_width as i64 - MARGIN as i64 {
                next.on_left_edge = false;
                next.on_right_edge = true;
            }
        } else {
            next.on_left_edge = false;
            next.on_right_edge = false;
        }
        if delta_y == 0 {
            if y <= MARGIN {
                next.on_upper_edge = true;
                next.on_lower_edge = false;
            } else if y as i64 >= self.state.window_height as i64 - MARGIN as i64 {
                next.on_upper_edge = false;
                next.on_lower_edge = true;
            }
        } else {
            next.on_upper_edge = false;
            next.on_lower_edge = false;
        }
        self.state = next;
        Turn { yaw: delta_x, pitch: delta_y }
    }

    /// Decides what one frame does to the angles. The state stays as it is;
    /// the caller applies a turn that is not still as after a cursor event.
    pub fn on_render(&self) -> (turn: Turn)
        ensures
            turn == self@.tick_turn(),
    {
        proof {
            lemma_named_patterns();
        }
        let mut yaw: i64 = 0;
        let mut pitch: i64 = 0;
        if self.state.on_left_edge {
            yaw = -EDGE_TURN;
        } else if self.state.on_right_edge {
            yaw = EDGE_TURN;
        }
        if self.state.on_upper_edge {
            if Scalar::from_bits(NEG_QUARTER_TURN_BITS).less(self.state.angle_v) {
                pitch = -EDGE_TURN;
            }
        } else if self.state.on_lower_edge {
            if self.state.angle_v.less(Scalar::from_bits(QUARTER_TURN_BITS)) {
                pitch = EDGE_TURN;
            }
        }
        Turn { yaw, pitch }
    }

    /// Stores the orientation that the caller computed from a turn: the two
    /// angles, and the unit forward and up vectors rebuilt from them.
    pub fn set_orientation(
        &mut self,
        angle_h: Scalar,
        angle_v: Scalar,
        target: Vector3,
        up: Vector3,
    )
        ensures
            final(self)@ == (CameraState { angle_h, angle_v, target, up, ..old(self)@ }),
    {
        proof {
            use_type_invariant(&*self);
        }
        let mut next = self.state;
        next.angle_h = angle_h;
        next.angle_v = angle_v;
        next.target = target;
        next.up = up;
        self.state = next;
    }

    /// Stores the position that the caller computed from a motion.
    pub fn set_pos(&mut self, pos: Vector3)
        ensures
            final(self)@ == (CameraState { pos, ..old(self)@ }),
    {
        proof {
            use_type_invariant(&*self);
        }
        let mut next = self.state;
        next.pos = pos;
        self.state = next;
    }
}

} // verus!
