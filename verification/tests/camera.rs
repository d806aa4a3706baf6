use bim_viewer::camera::{
    zoom_radius, CameraAxes, CameraRig, Motion, Projection, Viewport, DEFAULT_RADIUS, MIN_RADIUS,
};
use bim_viewer::fixed::Fixed;
use bim_viewer::input::{Gesture, InputSnapshot};
use bim_viewer::vector::{Vector2, Vector3};

fn fx(micro: i64) -> Fixed {
    Fixed::from_micro(micro)
}

fn v3(x: i64, y: i64, z: i64) -> Vector3 {
    Vector3 { x: fx(x), y: fx(y), z: fx(z) }
}

fn upright() -> CameraAxes {
    CameraAxes {
        right: v3(1_000_000, 0, 0),
        up: v3(0, 1_000_000, 0),
        back: v3(0, 0, 1_000_000),
    }
}

fn hd() -> Viewport {
    Viewport::new(Fixed::from_int(1280), Fixed::from_int(720)).unwrap()
}

fn perspective() -> Projection {
    Projection::Perspective { fov: fx(785_398), aspect_ratio: fx(1_777_778) }
}

fn input(orbit: bool, pan: bool, dx: i64, dy: i64, scroll: i64) -> InputSnapshot {
    InputSnapshot {
        orbit_button_held: orbit,
        orbit_edge: false,
        pan_button_held: pan,
        pointer_delta: Vector2 { x: fx(dx), y: fx(dy) },
        scroll_delta: fx(scroll),
    }
}

#[test]
fn orbit_by_a_tenth_of_the_width_yaws_a_fifth_of_a_half_turn() {
    let mut rig = CameraRig::default();
    let motion = rig.advance(
        &input(true, false, 128_000_000, 0, 0),
        &hd(),
        &perspective(),
        &upright(),
    );
    assert_eq!(motion, Motion::Orbit { yaw: fx(-200_000), pitch: fx(0) });
    let yaw_radians = match motion {
        Motion::Orbit { yaw, .. } => yaw.micro() as f64 / 1e6 * std::f64::consts::PI,
        _ => unreachable!(),
    };
    assert!((yaw_radians - (-0.2 * std::f64::consts::PI)).abs() < 1e-12);
    assert_eq!(rig.radius(), fx(DEFAULT_RADIUS));
    assert_eq!(rig.focal_point(), Vector3::zero());
}

#[test]
fn orbit_pitch_follows_the_height() {
    let mut rig = CameraRig::default();
    let motion = rig.advance(
        &input(true, false, 0, -36_000_000, 0),
        &hd(),
        &perspective(),
        &upright(),
    );
    assert_eq!(motion, Motion::Orbit { yaw: fx(0), pitch: fx(50_000) });
}

#[test]
fn orbit_angles_round_toward_zero() {
    let mut rig = CameraRig::default();
    let viewport = Viewport::new(Fixed::from_int(3), Fixed::from_int(3)).unwrap();
    let motion = rig.advance(
        &input(true, false, 1_000_000, 1_000_000, 0),
        &viewport,
        &perspective(),
        &upright(),
    );
    assert_eq!(motion, Motion::Orbit { yaw: fx(-666_666), pitch: fx(-333_333) });
}

#[test]
fn zoom_ten_by_one_gives_eight() {
    let mut rig = CameraRig::new(Vector3::zero(), Fixed::from_int(10));
    let motion = rig.advance(&input(false, false, 0, 0, 1_000_000), &hd(), &perspective(), &upright());
    assert_eq!(motion, Motion::Zoom);
    assert_eq!(rig.radius(), Fixed::from_int(8));
    assert_eq!(zoom_radius(Fixed::from_int(10), Fixed::from_int(1)), Fixed::from_int(8));
}

#[test]
fn zoom_backward_enlarges_the_radius() {
    assert_eq!(zoom_radius(Fixed::from_int(10), Fixed::from_int(-1)), Fixed::from_int(12));
    assert_eq!(zoom_radius(fx(1_000_000), fx(500_000)), fx(900_000));
}

#[test]
fn zoom_stops_at_the_minimum_radius() {
    assert_eq!(zoom_radius(Fixed::from_int(10), Fixed::from_int(5)), fx(MIN_RADIUS));
    assert_eq!(zoom_radius(Fixed::from_int(10), Fixed::from_int(500)), fx(MIN_RADIUS));
    assert_eq!(zoom_radius(fx(MIN_RADIUS), fx(300_000)), fx(MIN_RADIUS));
}

#[test]
fn radius_stays_above_the_minimum_through_any_run_of_zooms() {
    let mut rig = CameraRig::default();
    let scrolls = [3, 1, 4, 1, 5, 9, -2, 6, 5, 3, 5, 8, 9, 7, 9, 30, -1, 1000, 2, 7];
    for s in scrolls {
        rig.advance(
            &input(false, false, 0, 0, s * 1_000_000),
            &hd(),
            &perspective(),
            &upright(),
        );
        assert!(rig.radius().micro() >= MIN_RADIUS);
    }
    let mut rig = CameraRig::default();
    for _ in 0..200 {
        rig.advance(&input(false, false, 0, 0, 900_000), &hd(), &perspective(), &upright());
        assert!(rig.radius().micro() >= MIN_RADIUS);
    }
    assert_eq!(rig.radius(), fx(MIN_RADIUS));
}

#[test]
fn zoom_outward_saturates() {
    let mut rig = CameraRig::new(Vector3::zero(), fx(i64::MAX));
    rig.advance(&input(false, false, 0, 0, -1_000_000), &hd(), &perspective(), &upright());
    assert_eq!(rig.radius(), fx(i64::MAX));
}

#[test]
fn orbit_wins_over_pan_and_pan_over_zoom() {
    let mut both = input(true, true, 5_000_000, 0, 2_000_000);
    assert_eq!(both.gesture(), Gesture::Orbit);
    both.orbit_button_held = false;
    assert_eq!(both.gesture(), Gesture::Pan);
    both.pan_button_held = false;
    assert_eq!(both.gesture(), Gesture::Zoom);
    both.scroll_delta = fx(0);
    assert_eq!(both.gesture(), Gesture::Idle);
}

#[test]
fn held_button_without_travel_falls_through_to_zoom() {
    assert_eq!(input(true, true, 0, 0, 1).gesture(), Gesture::Zoom);
    assert_eq!(input(true, true, 0, 0, 0).gesture(), Gesture::Idle);
    assert_eq!(input(true, false, 0, 1, 0).gesture(), Gesture::Orbit);
    assert_eq!(input(false, true, -1, 0, 0).gesture(), Gesture::Pan);
}

#[test]
fn idle_tick_changes_nothing() {
    let mut rig = CameraRig::new(v3(1, 2, 3), Fixed::from_int(7));
    let motion = rig.advance(&input(true, true, 0, 0, 0), &hd(), &perspective(), &upright());
    assert_eq!(motion, Motion::Still);
    assert!(!motion.changes_pose());
    assert_eq!(rig.focal_point(), v3(1, 2, 3));
    assert_eq!(rig.radius(), Fixed::from_int(7));
    assert!(!rig.upside_down());
}

#[test]
fn every_motion_but_still_changes_the_pose() {
    assert!(Motion::Orbit { yaw: fx(0), pitch: fx(0) }.changes_pose());
    assert!(Motion::Pan.changes_pose());
    assert!(Motion::Zoom.changes_pose());
    assert!(!Motion::Still.changes_pose());
}

#[test]
fn upside_down_is_taken_on_an_orbit_edge_only() {
    let mut flipped = upright();
    flipped.up = v3(0, -1_000_000, 0);
    let mut rig = CameraRig::default();
    rig.advance(&input(true, false, 1_000_000, 0, 0), &hd(), &perspective(), &flipped);
    assert!(!rig.upside_down());
    let mut edge = input(false, false, 0, 0, 0);
    edge.orbit_edge = true;
    let motion = rig.advance(&edge, &hd(), &perspective(), &flipped);
    assert_eq!(motion, Motion::Still);
    assert!(rig.upside_down());
    rig.advance(&input(true, false, 1_000_000, 0, 0), &hd(), &perspective(), &upright());
    assert!(rig.upside_down());
    rig.advance(&edge, &hd(), &perspective(), &upright());
    assert!(!rig.upside_down());
}

#[test]
fn up_axis_lying_flat_counts_as_upside_down() {
    let mut flat = upright();
    flat.up = v3(1_000_000, 0, 0);
    let mut edge = input(false, false, 0, 0, 0);
    edge.orbit_edge = true;
    let mut rig = CameraRig::default();
    rig.advance(&edge, &hd(), &perspective(), &flat);
    assert!(rig.upside_down());
}

#[test]
fn pan_moves_the_focal_point_along_the_camera_axes() {
    let mut rig = CameraRig::new(v3(1_000_000, 2_000_000, 3_000_000), Fixed::from_int(5));
    let axes = CameraAxes {
        right: v3(600_000, 0, -800_000),
        up: v3(0, 1_000_000, 0),
        back: v3(800_000, 0, 600_000),
    };
    let motion = rig.advance(
        &input(false, true, 10_000_000, -4_000_000, 3_000_000),
        &hd(),
        &perspective(),
        &axes,
    );
    assert_eq!(motion, Motion::Pan);
    assert_eq!(rig.focal_point(), v3(967_276, 1_978_184, 3_043_632));
    assert_eq!(rig.radius(), Fixed::from_int(5));
}

#[test]
fn pan_is_proportional_to_the_radius() {
    let mut near = CameraRig::new(Vector3::zero(), Fixed::from_int(5));
    let mut far = CameraRig::new(Vector3::zero(), Fixed::from_int(10));
    let drag = input(false, true, 0, 72_000_000, 0);
    let flat = Projection::Perspective { fov: Fixed::from_int(1), aspect_ratio: Fixed::from_int(2) };
    near.advance(&drag, &hd(), &flat, &upright());
    far.advance(&drag, &hd(), &flat, &upright());
    assert_eq!(near.focal_point(), v3(0, 500_000, 0));
    assert_eq!(far.focal_point(), v3(0, 1_000_000, 0));
}

#[test]
fn pan_without_perspective_uses_the_raw_travel() {
    let mut rig = CameraRig::new(Vector3::zero(), Fixed::from_int(5));
    rig.advance(
        &input(false, true, 10_000_000, -4_000_000, 0),
        &hd(),
        &Projection::Orthographic,
        &upright(),
    );
    assert_eq!(rig.focal_point(), v3(-50_000_000, -20_000_000, 0));
}

#[test]
fn position_is_the_focal_point_plus_the_radius_along_back() {
    let rig = CameraRig::new(v3(1_000_000, 2_000_000, 3_000_000), Fixed::from_int(5));
    assert_eq!(rig.position(v3(0, 600_000, 800_000)), v3(1_000_000, 5_000_000, 7_000_000));
    assert_eq!(
        CameraRig::default().position(v3(0, 0, 1_000_000)),
        v3(0, 0, DEFAULT_RADIUS)
    );
}

#[test]
fn default_rig_looks_at_the_origin_from_five_away() {
    let rig = CameraRig::default();
    assert_eq!(rig.focal_point(), Vector3::zero());
    assert_eq!(rig.radius(), Fixed::from_int(5));
    assert!(!rig.upside_down());
}

#[test]
fn new_rig_raises_a_small_radius() {
    assert_eq!(CameraRig::new(Vector3::zero(), fx(0)).radius(), fx(MIN_RADIUS));
    assert_eq!(CameraRig::new(Vector3::zero(), fx(-3)).radius(), fx(MIN_RADIUS));
    assert_eq!(CameraRig::new(Vector3::zero(), fx(50_001)).radius(), fx(50_001));
}

#[test]
fn rig_from_translation_takes_its_length_as_radius() {
    let rig = CameraRig::from_translation(v3(-2_000_000, 2_500_000, 5_000_000));
    assert_eq!(rig.radius(), fx(5_937_171));
    assert_eq!(rig.focal_point(), Vector3::zero());
    assert!(!rig.upside_down());
    let exact = (35.25f64).sqrt();
    assert!((rig.radius().micro() as f64 / 1e6 - exact).abs() < 1e-6);
    assert_eq!(CameraRig::from_translation(Vector3::zero()).radius(), fx(MIN_RADIUS));
}

#[test]
fn length_is_the_root_of_the_squares_rounded_down() {
    assert_eq!(v3(3_000_000, 4_000_000, 0).length(), fx(5_000_000));
    assert_eq!(v3(-3_000_000, 0, -4_000_000).length(), fx(5_000_000));
    assert_eq!(v3(1, 1, 1).length(), fx(1));
    assert_eq!(v3(2, 2, 1).length(), fx(3));
    assert_eq!(v3(0, 0, 0).length(), fx(0));
    assert_eq!(v3(i64::MIN, 0, 0).length(), fx(i64::MAX));
    assert_eq!(v3(i64::MAX, i64::MAX, i64::MAX).length(), fx(i64::MAX));
    assert_eq!(v3(i64::MAX, 0, 0).length(), fx(i64::MAX));
}

#[test]
fn viewport_needs_two_positive_sides() {
    assert!(Viewport::new(fx(1), fx(1)).is_some());
    assert!(Viewport::new(fx(0), fx(1)).is_none());
    assert!(Viewport::new(fx(1), fx(0)).is_none());
    assert!(Viewport::new(fx(-5), fx(7)).is_none());
    let viewport = hd();
    assert_eq!(viewport.width(), Fixed::from_int(1280));
    assert_eq!(viewport.height(), Fixed::from_int(720));
}

#[test]
fn gather_sums_motions_and_scrolls() {
    let motions = vec![
        Vector2 { x: fx(1_500_000), y: fx(-250_000) },
        Vector2 { x: fx(2_000_000), y: fx(0) },
        Vector2 { x: fx(-500_000), y: fx(-750_000) },
    ];
    let scrolls = vec![fx(1_000_000), fx(-3_000_000)];
    let snapshot = InputSnapshot::gather(true, false, false, true, &motions, &scrolls);
    assert!(snapshot.orbit_button_held);
    assert!(snapshot.pan_button_held);
    assert!(!snapshot.orbit_edge);
    assert_eq!(snapshot.pointer_delta, Vector2 { x: fx(3_000_000), y: fx(-1_000_000) });
    assert_eq!(snapshot.scroll_delta, fx(-2_000_000));
}

#[test]
fn gather_marks_press_and_release_as_edges() {
    let none: Vec<Vector2> = Vec::new();
    let still: Vec<Fixed> = Vec::new();
    assert!(InputSnapshot::gather(true, true, false, false, &none, &still).orbit_edge);
    assert!(InputSnapshot::gather(false, false, true, false, &none, &still).orbit_edge);
    let quiet = InputSnapshot::gather(false, false, false, false, &none, &still);
    assert!(!quiet.orbit_edge);
    assert_eq!(quiet.pointer_delta, Vector2 { x: fx(0), y: fx(0) });
    assert_eq!(quiet.scroll_delta, fx(0));
    assert_eq!(quiet.gesture(), Gesture::Idle);
}

#[test]
fn gather_saturates_step_by_step() {
    let scrolls = vec![fx(i64::MAX), fx(10), fx(-10)];
    let none: Vec<Vector2> = Vec::new();
    let snapshot = InputSnapshot::gather(false, false, false, false, &none, &scrolls);
    assert_eq!(snapshot.scroll_delta, fx(i64::MAX - 10));
}
