use orbitcam::camera::place_camera;
use orbitcam::camera::recompose;
use orbitcam::fixed::wrap_angle;
use orbitcam::fixed::SCALE;
use orbitcam::fixed::TURN;
use orbitcam::locomotion::displacement;
use orbitcam::locomotion::intent;
use orbitcam::locomotion::normalize_intent;
use orbitcam::locomotion::rotate_y;
use orbitcam::locomotion::update_player;
use orbitcam::locomotion::INV_SQRT2;
use orbitcam::orbit::advance;
use orbitcam::orbit::corrected_distance;
use orbitcam::orbit::OrbitConfig;
use orbitcam::orbit::OrbitState;
use orbitcam::types::KeyInput;
use orbitcam::types::Orientation;
use orbitcam::types::Pose;
use orbitcam::types::Vec3;

fn config() -> OrbitConfig {
    OrbitConfig::default()
}

fn no_keys() -> KeyInput {
    KeyInput { forward: false, back: false, left: false, right: false }
}

#[test]
fn default_config_matches_the_design() {
    let c = config();
    assert_eq!(c.orbit_distance, 10_000_000);
    assert_eq!(c.pitch_speed, 3_000);
    assert_eq!(c.yaw_speed, 4_000);
    assert_eq!(c.pitch_min, -1_560_796);
    assert_eq!(c.pitch_max, 0);
}

#[test]
fn pitch_stays_clamped_over_any_update_run() {
    let c = config();
    let mut st = OrbitState::new(&c, 0, -200_000);
    let runs: [(i64, i64); 7] =
        [(0, 900_000), (3, -900_000), (-5, 14), (0, 2_000), (9, -1), (0, 1_000_000), (2, -1_000_000)];
    for (dx, dy) in runs {
        advance(&mut st, &c, dx, dy);
        assert!(c.pitch_min <= st.pitch && st.pitch <= c.pitch_max);
    }
}

#[test]
fn mouse_up_looks_up_and_mouse_down_is_clamped() {
    let c = config();
    let mut st = OrbitState::new(&c, 0, -100_000);
    advance(&mut st, &c, 0, -5);
    assert_eq!(st.pitch, -85_000);
    advance(&mut st, &c, 0, -100);
    assert_eq!(st.pitch, 0);
    advance(&mut st, &c, 0, 1_000_000);
    assert_eq!(st.pitch, c.pitch_min);
}

#[test]
fn yaw_is_unbounded_and_never_wrapped() {
    let c = config();
    let mut st = OrbitState::new(&c, 0, 0);
    advance(&mut st, &c, -1_000_000, 0);
    assert_eq!(st.yaw, 4_000_000_000);
    advance(&mut st, &c, -1_000_000, 0);
    assert_eq!(st.yaw, 8_000_000_000);
    assert!(st.yaw > i64::from(TURN));
}

#[test]
fn a_full_turn_of_yaw_recomposes_the_same_orientation() {
    for yaw in [0i64, 1, 123_456, TURN - 1, -987_654, 5 * TURN + 42] {
        let a = recompose(yaw, -300_000);
        let b = recompose(yaw + TURN, -300_000);
        assert_eq!(a, b);
    }
}

#[test]
fn wrap_angle_is_canonical() {
    assert_eq!(wrap_angle(0), 0);
    assert_eq!(wrap_angle(TURN), 0);
    assert_eq!(wrap_angle(-TURN), 0);
    assert_eq!(wrap_angle(-1), TURN - 1);
    assert_eq!(wrap_angle(TURN + 5), 5);
    assert_eq!(wrap_angle(-2 * TURN - 7), TURN - 7);
}

#[test]
fn an_idle_frame_changes_neither_player_nor_camera() {
    let c = config();
    let mut st = OrbitState::new(&c, 777_000, -400_000);
    let mut player = Pose {
        position: Vec3 { x: 1_000_000, y: 1_000_000, z: -3_000_000 },
        orientation: Orientation { yaw: 0, pitch: 0 },
    };
    let mut cam = Pose {
        position: Vec3 { x: 0, y: 0, z: 0 },
        orientation: Orientation { yaw: 0, pitch: 0 },
    };
    let forward = Vec3 { x: 0, y: -99_000, z: -995_000 };
    let hit = Some(7_300_000);
    place_camera(&mut cam, &st, &c, player.position, forward, hit);
    let cam_before = cam;
    let st_before = st;
    let player_before = player;

    update_player(&mut player, &no_keys(), 555_555, 831_000, 16_667);
    advance(&mut st, &c, 0, 0);
    place_camera(&mut cam, &st, &c, player.position, forward, hit);

    assert_eq!(player, player_before);
    assert_eq!(st, st_before);
    assert_eq!(cam, cam_before);
}

#[test]
fn probe_hits_shorten_the_orbit_distance() {
    let c = config();
    assert_eq!(corrected_distance(&c, Some(4_000_000)), 3_950_000);
    assert_eq!(corrected_distance(&c, Some(15_000_000)), 10_000_000);
    assert_eq!(corrected_distance(&c, None), 10_000_000);
    assert_eq!(corrected_distance(&c, Some(10_000_000)), 10_000_000);
    assert_eq!(corrected_distance(&c, Some(9_999_999)), 9_949_999);
    assert_eq!(corrected_distance(&c, Some(10_000)), -40_000);
}

#[test]
fn forward_key_moves_along_negative_z() {
    let keys = KeyInput { forward: true, back: false, left: false, right: false };
    let mut player = Pose {
        position: Vec3 { x: 0, y: 1_000_000, z: 0 },
        orientation: Orientation { yaw: 0, pitch: 0 },
    };
    update_player(&mut player, &keys, 0, SCALE, SCALE);
    assert_eq!(player.position, Vec3 { x: 0, y: 1_000_000, z: -5_000_000 });
    update_player(&mut player, &keys, 0, SCALE, 16_667);
    assert_eq!(player.position, Vec3 { x: 0, y: 1_000_000, z: -5_083_335 });
}

#[test]
fn movement_speed_scales_with_frame_time() {
    let keys = KeyInput { forward: false, back: true, left: false, right: false };
    let d_long = displacement(&keys, 0, SCALE, 2_000_000);
    let d_short = displacement(&keys, 0, SCALE, 1_000_000);
    assert_eq!(d_long.z, 2 * d_short.z);
}

#[test]
fn diagonal_speed_equals_axial_speed() {
    let diagonal = KeyInput { forward: true, back: false, left: true, right: false };
    let axial = KeyInput { forward: true, back: false, left: false, right: false };
    let d = displacement(&diagonal, 0, SCALE, SCALE);
    let a = displacement(&axial, 0, SCALE, SCALE);
    let d_len = ((d.x as f64) * (d.x as f64) + (d.z as f64) * (d.z as f64)).sqrt();
    let a_len = ((a.x as f64) * (a.x as f64) + (a.z as f64) * (a.z as f64)).sqrt();
    assert!((d_len - a_len).abs() < 5.0, "diagonal {d_len} axial {a_len}");
}

#[test]
fn zero_intent_normalizes_to_zero_displacement() {
    let d = displacement(&no_keys(), 123, -999_999, 10_000_000);
    assert_eq!(d, Vec3 { x: 0, y: 0, z: 0 });
    let z = normalize_intent(Vec3 { x: 0, y: 0, z: 0 });
    assert_eq!(z, Vec3 { x: 0, y: 0, z: 0 });
}

#[test]
fn opposed_keys_tie_break_to_back_and_right() {
    let all = KeyInput { forward: true, back: true, left: true, right: true };
    let v = intent(&all);
    assert_eq!(v, Vec3 { x: 1, y: 0, z: 1 });
}

#[test]
fn normalization_removes_the_diagonal_boost() {
    let v = intent(&KeyInput { forward: true, back: false, left: false, right: true });
    assert_eq!(v, Vec3 { x: 1, y: 0, z: -1 });
    let n = normalize_intent(v);
    assert_eq!(n, Vec3 { x: INV_SQRT2, y: 0, z: -INV_SQRT2 });
}

#[test]
fn rotation_by_a_quarter_turn_swings_forward_to_minus_x() {
    let forward = Vec3 { x: 0, y: 0, z: -SCALE };
    let r = rotate_y(forward, SCALE, 0);
    assert_eq!(r, Vec3 { x: -SCALE, y: 0, z: 0 });
}

#[test]
fn camera_sits_behind_the_target_at_the_corrected_distance() {
    let c = config();
    let st = OrbitState::new(&c, 0, 0);
    let mut cam = Pose {
        position: Vec3 { x: 0, y: 0, z: 0 },
        orientation: Orientation { yaw: 0, pitch: 0 },
    };
    let target = Vec3 { x: 0, y: 1_000_000, z: 0 };
    let looking_minus_z = Vec3 { x: 0, y: 0, z: -SCALE };

    place_camera(&mut cam, &st, &c, target, looking_minus_z, None);
    assert_eq!(cam.position, Vec3 { x: 0, y: 1_000_000, z: 10_000_000 });
    assert_eq!(cam.orientation, Orientation { yaw: 0, pitch: 0 });

    place_camera(&mut cam, &st, &c, target, looking_minus_z, Some(4_000_000));
    assert_eq!(cam.position, Vec3 { x: 0, y: 1_000_000, z: 3_950_000 });
}

#[test]
fn new_state_clamps_a_wild_pitch() {
    let c = config();
    let st = OrbitState::new(&c, 42, -9_000_000);
    assert_eq!(st.pitch, c.pitch_min);
    assert_eq!(st.yaw, 42);
    let st2 = OrbitState::new(&c, -7, 500_000);
    assert_eq!(st2.pitch, 0);
}
