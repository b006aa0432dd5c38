use cgmath::{Deg, InnerSpace, Matrix3};
use ogldev::camera::{EDGE_TURN, MARGIN, STEP_SCALE_BITS, TURN_UNITS_PER_DEGREE};
use ogldev::{
    yaw_rule, Camera, CameraState, GeometryError, Heading, Key, Motion, Scalar, Turn, Vector3,
    YawRule,
};

fn s(x: f32) -> Scalar {
    Scalar::from_bits(x.to_bits())
}

fn f(x: Scalar) -> f32 {
    f32::from_bits(x.to_bits())
}

fn v(x: f32, y: f32, z: f32) -> Vector3 {
    Vector3::new(s(x), s(y), s(z))
}

fn cg(a: Vector3) -> cgmath::Vector3<f32> {
    cgmath::Vector3::new(f(a.x), f(a.y), f(a.z))
}

fn lib(a: cgmath::Vector3<f32>) -> Vector3 {
    v(a.x, a.y, a.z)
}

/// Yaw and pitch of a forward vector, in degrees.
fn angles_of(target: cgmath::Vector3<f32>) -> (f32, f32) {
    let h = cgmath::Vector3::new(target.x, 0.0, target.z).normalize();
    let rule = yaw_rule(s(h.x), s(h.z));
    let a = h.z.abs().asin().to_degrees();
    let yaw = if rule.rising { f(rule.base) + a } else { f(rule.base) - a };
    (yaw, -(target.y.asin().to_degrees()))
}

/// Forward and up vectors of a yaw and a pitch.
fn basis_of(angle_h: f32, angle_v: f32) -> (cgmath::Vector3<f32>, cgmath::Vector3<f32>) {
    let v_axis = cgmath::Vector3::new(0.0, 1.0, 0.0);
    let mut view = cgmath::Vector3::new(1.0, 0.0, 0.0);
    view = (Matrix3::from_axis_angle(v_axis, Deg(angle_h)) * view).normalize();
    let h_axis = v_axis.cross(view).normalize();
    view = (Matrix3::from_axis_angle(h_axis, Deg(angle_v)) * view).normalize();
    (view, view.cross(h_axis).normalize())
}

fn apply_turn(camera: &mut Camera, turn: Turn) {
    let state = camera.state();
    let angle_h = f(state.angle_h) + (turn.yaw as f32) / (TURN_UNITS_PER_DEGREE as f32);
    let angle_v = f(state.angle_v) + (turn.pitch as f32) / (TURN_UNITS_PER_DEGREE as f32);
    let (target, up) = basis_of(angle_h, angle_v);
    camera.set_orientation(s(angle_h), s(angle_v), lib(target), lib(up));
}

fn apply_motion(camera: &mut Camera, motion: Motion) {
    let target = cg(camera.get_target());
    let up = cg(camera.get_up());
    let direction = match motion.heading {
        Heading::Target => target,
        Heading::TargetCrossUp => target.cross(up).normalize(),
        Heading::UpCrossTarget => up.cross(target).normalize(),
    };
    camera.set_pos(lib(cg(camera.get_pos()) + direction * f(motion.distance)));
}

fn flags(camera: &Camera) -> (bool, bool, bool, bool) {
    let state = camera.state();
    (state.on_left_edge, state.on_right_edge, state.on_upper_edge, state.on_lower_edge)
}

#[test]
fn default_camera_looks_along_z_from_the_origin() {
    let camera = Camera::default(1024, 768);
    let state = camera.state();
    assert_eq!(camera.get_pos(), v(0.0, 0.0, 0.0));
    assert_eq!(camera.get_target(), v(0.0, 0.0, 1.0));
    assert_eq!(camera.get_up(), v(0.0, 1.0, 0.0));
    assert_eq!(state.window_width, 1024);
    assert_eq!(state.window_height, 768);
    assert_eq!((state.mouse_x, state.mouse_y), (512, 384));
    assert_eq!(flags(&camera), (false, false, false, false));
    assert_eq!(f(state.angle_h), 270.0);
    assert_eq!(f(state.angle_v), 0.0);
}

#[test]
fn default_angles_are_those_of_the_default_target() {
    let camera = Camera::default(640, 480);
    let (yaw, pitch) = angles_of(cg(camera.get_target()));
    assert_eq!(camera.state().angle_h, s(yaw));
    assert_eq!(camera.state().angle_v, s(pitch));
    let explicit = Camera::new(
        640,
        480,
        v(0.0, 0.0, 0.0),
        v(0.0, 0.0, 1.0),
        v(0.0, 1.0, 0.0),
        s(yaw),
        s(pitch),
    );
    assert_eq!(explicit.map(|c| c.state()), Ok(camera.state()));
    let (target, up) = basis_of(yaw, pitch);
    assert!((target - cg(camera.get_target())).magnitude() < 1e-5);
    assert!((up - cg(camera.get_up())).magnitude() < 1e-5);
}

#[test]
fn new_camera_stores_the_pose_and_centres_the_cursor() {
    let camera = Camera::new(
        801,
        601,
        v(1.0, 2.0, 3.0),
        v(0.0, 0.0, -1.0),
        v(0.0, 1.0, 0.0),
        s(90.0),
        s(0.0),
    );
    let state = camera.map(|c| c.state()).unwrap();
    assert_eq!(
        state,
        CameraState {
            pos: v(1.0, 2.0, 3.0),
            target: v(0.0, 0.0, -1.0),
            up: v(0.0, 1.0, 0.0),
            window_width: 801,
            window_height: 601,
            angle_h: s(90.0),
            angle_v: s(0.0),
            on_upper_edge: false,
            on_lower_edge: false,
            on_left_edge: false,
            on_right_edge: false,
            mouse_x: 400,
            mouse_y: 300,
        }
    );
    let wide = Camera::default(u32::MAX, 0).state();
    assert_eq!((wide.mouse_x, wide.mouse_y), (i32::MAX, 0));
}

#[test]
fn new_camera_without_direction_is_rejected() {
    let zero = v(0.0, -0.0, 0.0);
    let some = v(0.0, 1.0, 0.0);
    let rejected = Some(GeometryError::DegenerateCameraFrame);
    assert_eq!(Camera::new(8, 8, some, zero, some, s(0.0), s(0.0)).err(), rejected);
    assert_eq!(Camera::new(8, 8, some, some, zero, s(0.0), s(0.0)).err(), rejected);
    assert_eq!(Camera::new(8, 8, some, zero, zero, s(0.0), s(0.0)).err(), rejected);
    assert!(Camera::new(8, 8, zero, some, some, s(0.0), s(0.0)).is_ok());
}

#[test]
fn directional_keys_ask_for_a_step_and_other_keys_for_nothing() {
    let camera = Camera::default(1024, 768);
    assert_eq!(STEP_SCALE_BITS, 0.2f32.to_bits());
    assert_eq!(
        camera.on_key_board(Key::Up),
        Some(Motion { heading: Heading::Target, distance: s(0.2) })
    );
    assert_eq!(
        camera.on_key_board(Key::Down),
        Some(Motion { heading: Heading::Target, distance: s(-0.2) })
    );
    assert_eq!(
        camera.on_key_board(Key::Left),
        Some(Motion { heading: Heading::TargetCrossUp, distance: s(0.2) })
    );
    assert_eq!(
        camera.on_key_board(Key::Right),
        Some(Motion { heading: Heading::UpCrossTarget, distance: s(0.2) })
    );
    assert_eq!(camera.on_key_board(Key::Other), None);
    assert_eq!(camera.state(), Camera::default(1024, 768).state());
}

#[test]
fn key_up_moves_the_default_camera_forward_by_one_step() {
    let mut camera = Camera::default(1024, 768);
    let motion = camera.on_key_board(Key::Up).unwrap();
    apply_motion(&mut camera, motion);
    assert_eq!(camera.get_pos(), v(0.0, 0.0, 0.2));
    assert_eq!(camera.get_target(), v(0.0, 0.0, 1.0));
    let motion = camera.on_key_board(Key::Down).unwrap();
    apply_motion(&mut camera, motion);
    assert_eq!(cg(camera.get_pos()), cgmath::Vector3::new(0.0, 0.0, 0.0));
}

#[test]
fn left_and_right_keys_strafe_along_the_cross_products() {
    let mut camera = Camera::default(1024, 768);
    let motion = camera.on_key_board(Key::Left).unwrap();
    apply_motion(&mut camera, motion);
    assert_eq!(cg(camera.get_pos()), cgmath::Vector3::new(-0.2, 0.0, 0.0));
    let mut camera = Camera::default(1024, 768);
    let motion = camera.on_key_board(Key::Right).unwrap();
    apply_motion(&mut camera, motion);
    assert_eq!(cg(camera.get_pos()), cgmath::Vector3::new(0.2, 0.0, 0.0));
}

#[test]
fn mouse_travel_is_reported_as_turn_and_the_cursor_is_stored() {
    let mut camera = Camera::default(1024, 768);
    let turn = camera.on_mouse(532, 374);
    assert_eq!(turn, Turn { yaw: 20, pitch: -10 });
    assert!(!turn.is_still());
    let state = camera.state();
    assert_eq!((state.mouse_x, state.mouse_y), (532, 374));
    assert_eq!(flags(&camera), (false, false, false, false));
    assert_eq!(state.angle_h, s(270.0));
    apply_turn(&mut camera, turn);
    assert_eq!(f(camera.state().angle_h), 271.0);
    assert_eq!(f(camera.state().angle_v), -0.5);
    let turn = camera.on_mouse(532, 374);
    assert_eq!(turn, Turn { yaw: 0, pitch: 0 });
    assert!(turn.is_still());
}

#[test]
fn mouse_at_the_extremes_does_not_overflow() {
    let mut camera = Camera::default(1024, 768);
    camera.on_mouse(i32::MIN, i32::MAX);
    let turn = camera.on_mouse(i32::MAX, i32::MIN);
    assert_eq!(turn, Turn { yaw: 4294967295, pitch: -4294967295 });
    assert_eq!(flags(&camera), (false, false, false, false));
    let turn = camera.on_mouse(i32::MAX, i32::MIN);
    assert!(turn.is_still());
    assert_eq!(flags(&camera), (false, true, true, false));
}

#[test]
fn cursor_resting_at_the_left_edge_starts_the_rotation() {
    let mut camera = Camera::default(1024, 768);
    let turn = camera.on_mouse(5, 384);
    apply_turn(&mut camera, turn);
    assert_eq!(flags(&camera), (false, false, false, false));
    let turn = camera.on_mouse(5, 300);
    apply_turn(&mut camera, turn);
    assert_eq!(flags(&camera), (true, false, false, false));
    let before = camera.state();
    let tick = camera.on_render();
    assert_eq!(tick, Turn { yaw: -2, pitch: 0 });
    assert_eq!(EDGE_TURN, 2);
    assert_eq!((tick.yaw as f32) / (TURN_UNITS_PER_DEGREE as f32), -0.1);
    assert_eq!(camera.state(), before);
    apply_turn(&mut camera, tick);
    assert_eq!(f(camera.state().angle_h), f(before.angle_h) - 0.1);
    assert_eq!(f(camera.state().angle_v), f(before.angle_v));
    assert_eq!(flags(&camera), (true, false, false, false));
}

#[test]
fn edges_are_detected_within_the_margin_only() {
    assert_eq!(MARGIN, 10);
    let cases = [
        (10, (true, false)),
        (11, (false, false)),
        (0, (true, false)),
        (-3, (true, false)),
        (1013, (false, false)),
        (1014, (false, true)),
        (1024, (false, true)),
        (2000, (false, true)),
        (512, (false, false)),
    ];
    for (x, expected) in cases {
        let mut camera = Camera::default(1024, 768);
        camera.on_mouse(x, 100);
        camera.on_mouse(x, 101);
        let state = camera.state();
        assert_eq!((state.on_left_edge, state.on_right_edge), expected, "x = {}", x);
    }
    let cases = [(10, (true, false)), (11, (false, false)), (757, (false, false)), (758, (false, true))];
    for (y, expected) in cases {
        let mut camera = Camera::default(1024, 768);
        camera.on_mouse(100, y);
        camera.on_mouse(101, y);
        let state = camera.state();
        assert_eq!((state.on_upper_edge, state.on_lower_edge), expected, "y = {}", y);
    }
}

#[test]
fn edge_flags_persist_until_the_cursor_moves_along_their_axis() {
    let mut camera = Camera::default(1024, 768);
    camera.on_mouse(1020, 400);
    camera.on_mouse(1020, 401);
    assert_eq!(flags(&camera), (false, true, false, false));
    camera.on_mouse(1020, 5);
    assert_eq!(flags(&camera), (false, true, false, false));
    camera.on_mouse(1020, 5);
    assert_eq!(flags(&camera), (false, true, true, false));
    camera.on_mouse(1019, 5);
    assert_eq!(flags(&camera), (false, false, true, false));
    camera.on_mouse(500, 5);
    camera.on_mouse(500, 5);
    assert_eq!(flags(&camera), (false, false, true, false));
    camera.on_mouse(500, 6);
    assert_eq!(flags(&camera), (false, false, false, false));
}

#[test]
fn opposite_edge_flags_are_never_set_together() {
    for (width, height) in [(1024u32, 768u32), (15, 15), (0, 0), (20, 21), (u32::MAX, 1)] {
        let mut camera = Camera::default(width, height);
        let mut x: i32 = 7;
        let mut y: i32 = 3;
        for step in 0..400 {
            if step % 3 == 0 {
                x = (x * 31 + step) % 40 - 5;
            }
            if step % 5 == 0 {
                y = (y * 17 + step) % 40 - 5;
            }
            camera.on_mouse(x, y);
            let (left, right, upper, lower) = flags(&camera);
            assert!(!(left && right));
            assert!(!(upper && lower));
        }
    }
}

#[test]
fn overlapping_margins_give_the_low_edge() {
    let mut camera = Camera::default(15, 15);
    camera.on_mouse(8, 8);
    camera.on_mouse(8, 8);
    assert_eq!(flags(&camera), (true, false, true, false));
    camera.on_mouse(12, 12);
    camera.on_mouse(12, 12);
    assert_eq!(flags(&camera), (false, true, false, true));
    camera.on_mouse(12, 8);
    camera.on_mouse(12, 8);
    assert_eq!(flags(&camera), (false, true, true, false));
}

#[test]
fn frame_without_edge_contact_asks_for_nothing() {
    let camera = Camera::default(1024, 768);
    assert_eq!(camera.on_render(), Turn { yaw: 0, pitch: 0 });
    assert!(camera.on_render().is_still());
}

#[test]
fn frame_turns_right_and_down_at_the_right_and_lower_edges() {
    let mut camera = Camera::default(1024, 768);
    camera.on_mouse(1020, 765);
    camera.on_mouse(1020, 765);
    assert_eq!(flags(&camera), (false, true, false, true));
    assert_eq!(camera.on_render(), Turn { yaw: 2, pitch: 2 });
    camera.on_mouse(1020, 2);
    camera.on_mouse(1020, 2);
    assert_eq!(flags(&camera), (false, true, true, false));
    assert_eq!(camera.on_render(), Turn { yaw: 2, pitch: -2 });
}

#[test]
fn frame_stops_the_pitch_at_a_quarter_turn() {
    let target = v(0.0, 0.0, 1.0);
    let up = v(0.0, 1.0, 0.0);
    let upper_cases = [
        (0.0f32, -2),
        (-89.99999, -2),
        (-90.0, 0),
        (-90.00001, 0),
        (-720.0, 0),
        (90.0, -2),
        (500.0, -2),
        (f32::NAN, 0),
        (f32::NEG_INFINITY, 0),
        (f32::INFINITY, -2),
    ];
    for (pitch, expected) in upper_cases {
        let mut camera = Camera::default(1024, 768);
        camera.on_mouse(512, 0);
        camera.on_mouse(512, 0);
        camera.set_orientation(s(270.0), s(pitch), target, up);
        assert_eq!(camera.on_render(), Turn { yaw: 0, pitch: expected }, "pitch {}", pitch);
    }
    let lower_cases = [
        (0.0f32, 2),
        (89.99999, 2),
        (90.0, 0),
        (90.00001, 0),
        (-90.0, 2),
        (f32::NAN, 0),
        (f32::INFINITY, 0),
        (f32::NEG_INFINITY, 2),
    ];
    for (pitch, expected) in lower_cases {
        let mut camera = Camera::default(1024, 768);
        camera.on_mouse(512, 768);
        camera.on_mouse(512, 768);
        camera.set_orientation(s(270.0), s(pitch), target, up);
        assert_eq!(camera.on_render(), Turn { yaw: 0, pitch: expected }, "pitch {}", pitch);
    }
}

#[test]
fn continuous_rotation_stops_below_a_quarter_turn() {
    let mut camera = Camera::default(1024, 768);
    camera.on_mouse(512, 768);
    camera.on_mouse(512, 768);
    let mut frames = 0;
    loop {
        let tick = camera.on_render();
        if tick.is_still() {
            break;
        }
        apply_turn(&mut camera, tick);
        frames += 1;
        assert!(frames < 2000);
    }
    let pitch = f(camera.state().angle_v);
    assert!(pitch >= 90.0 && pitch < 90.2, "pitch {}", pitch);
    assert!(frames >= 899 && frames <= 902, "frames {}", frames);
}

#[test]
fn set_orientation_and_set_pos_keep_the_rest() {
    let mut camera = Camera::default(1024, 768);
    camera.on_mouse(3, 3);
    camera.on_mouse(3, 3);
    let before = camera.state();
    camera.set_orientation(s(10.0), s(20.0), v(1.0, 0.0, 0.0), v(0.0, 0.0, 1.0));
    assert_eq!(
        camera.state(),
        CameraState {
            angle_h: s(10.0),
            angle_v: s(20.0),
            target: v(1.0, 0.0, 0.0),
            up: v(0.0, 0.0, 1.0),
            ..before
        }
    );
    let before = camera.state();
    camera.set_pos(v(7.0, 8.0, 9.0));
    assert_eq!(camera.state(), CameraState { pos: v(7.0, 8.0, 9.0), ..before });
    assert_eq!(camera.get_pos(), v(7.0, 8.0, 9.0));
    assert_eq!(camera.get_target(), v(1.0, 0.0, 0.0));
    assert_eq!(camera.get_up(), v(0.0, 0.0, 1.0));
}

#[test]
fn yaw_rule_of_each_quadrant() {
    assert_eq!(yaw_rule(s(0.6), s(0.8)), YawRule { base: s(360.0), rising: false });
    assert_eq!(yaw_rule(s(-0.6), s(0.8)), YawRule { base: s(180.0), rising: true });
    assert_eq!(yaw_rule(s(0.6), s(-0.8)), YawRule { base: s(0.0), rising: true });
    assert_eq!(yaw_rule(s(-0.6), s(-0.8)), YawRule { base: s(180.0), rising: false });
    assert_eq!(yaw_rule(s(0.0), s(1.0)), YawRule { base: s(360.0), rising: false });
    assert_eq!(yaw_rule(s(-0.0), s(-0.0)), YawRule { base: s(360.0), rising: false });
    assert_eq!(yaw_rule(s(1.0), s(-1.0e-45)), YawRule { base: s(0.0), rising: true });
    assert_eq!(yaw_rule(s(f32::NAN), s(f32::NAN)), YawRule { base: s(180.0), rising: false });
    assert_eq!(yaw_rule(s(f32::NAN), s(0.5)), YawRule { base: s(180.0), rising: true });
}

#[test]
fn angles_and_basis_round_trip_in_every_quadrant() {
    let targets = [
        (0.0f32, 0.0f32, 1.0f32),
        (1.0, 0.0, 0.0),
        (0.0, 0.0, -1.0),
        (-1.0, 0.0, 0.0),
        (0.6, 0.0, 0.8),
        (-0.6, 0.0, 0.8),
        (0.6, 0.0, -0.8),
        (-0.6, 0.0, -0.8),
        (1.0, 1.0, 1.0),
        (-1.0, 2.0, 3.0),
        (2.0, -1.0, -3.0),
        (-3.0, -2.0, -1.0),
        (0.01, 0.9999, 0.01),
        (-0.01, 0.9999, 0.01),
        (0.01, -0.9999, -0.01),
        (-0.01, -0.9999, -0.01),
    ];
    for (x, y, z) in targets {
        let target = cgmath::Vector3::new(x, y, z).normalize();
        let (yaw, pitch) = angles_of(target);
        let (rebuilt, up) = basis_of(yaw, pitch);
        assert!((rebuilt - target).magnitude() < 1e-4, "{:?} became {:?}", target, rebuilt);
        assert!((rebuilt.magnitude() - 1.0).abs() < 1e-5);
        assert!((up.magnitude() - 1.0).abs() < 1e-5);
        assert!(rebuilt.dot(up).abs() < 1e-5);
    }
}

#[test]
fn rebuilt_basis_is_orthonormal() {
    let mut yaw = -400.0f32;
    while yaw <= 400.0 {
        let mut pitch = -89.5f32;
        while pitch <= 89.5 {
            let (target, up) = basis_of(yaw, pitch);
            assert!((target.magnitude() - 1.0).abs() < 1e-5);
            assert!((up.magnitude() - 1.0).abs() < 1e-5);
            assert!(target.dot(up).abs() < 1e-5);
            pitch += 17.9;
        }
        yaw += 36.7;
    }
}
