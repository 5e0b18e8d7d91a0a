//! The orbit camera controller: recomposing the orientation from yaw
//! and pitch, and placing the camera behind the target at the
//! probe-corrected distance.

use vstd::prelude::*;
use crate::fixed::lemma_abs_mul_bound;
use crate::fixed::lemma_div_trunc_bound;
use crate::fixed::lemma_wrap_add_turns;
use crate::fixed::mul_fx;
use crate::fixed::scale_mul;
use crate::fixed::wrap_angle;
use crate::fixed::wrap_spec;
use crate::fixed::DIST_LIMIT;
use crate::fixed::POS_LIMIT;
use crate::fixed::SCALE;
use crate::fixed::TURN;
use crate::locomotion::disp_x_spec;
use crate::locomotion::disp_z_spec;
use crate::locomotion::lemma_idle_keys_no_motion;
use crate::orbit::corrected_distance;
use crate::orbit::corrected_distance_spec;
use crate::orbit::hit_wf;
use crate::orbit::pitch_step;
use crate::orbit::yaw_step;
use crate::orbit::OrbitConfig;
use crate::orbit::OrbitState;
use crate::types::KeyInput;
use crate::types::Orientation;
use crate::types::Pose;
use crate::types::Vec3;

verus! {

/// The orientation written each frame: the canonical form of the yaw,
/// the clamped pitch, and always zero roll.
pub open spec fn recompose_spec(yaw: int, pitch: i64) -> Orientation {
    Orientation { yaw: wrap_spec(yaw) as i64, pitch }
}

/// Rebuild the camera orientation from the orbit angles.
pub fn recompose(yaw: i64, pitch: i64) -> (o: Orientation)
    ensures
        o == recompose_spec(yaw as int, pitch),
        0 <= o.yaw < TURN,
        o.pitch == pitch,
{
    Orientation { yaw: wrap_angle(yaw), pitch }
}

/// Yaw values one whole turn apart recompose to the very same
/// orientation: growing the yaw without bound loses nothing.
pub proof fn lemma_full_turn_same_orientation(yaw: int, pitch: i64)
    ensures
        recompose_spec(yaw + TURN, pitch) == recompose_spec(yaw, pitch),
{
    lemma_wrap_add_turns(yaw, 1);
    assert(yaw + 1 * (TURN as int) == yaw + TURN);
}

/// And so do yaw values any whole number of turns apart.
pub proof fn lemma_whole_turns_same_orientation(yaw: int, turns: int, pitch: i64)
    ensures
        recompose_spec(yaw + turns * TURN, pitch) == recompose_spec(yaw, pitch),
{
    lemma_wrap_add_turns(yaw, turns);
}

/// The pose the controller writes: the camera sits at the target minus
/// the forward direction scaled by the probe-corrected distance, facing
/// the target with the recomposed orientation.
pub open spec fn camera_pose_spec(
    state: OrbitState,
    config: OrbitConfig,
    target: Vec3,
    forward: Vec3,
    hit: Option<i64>,
) -> Pose {
    let d = corrected_distance_spec(config.orbit_distance as int, hit);
    Pose {
        position: Vec3 {
            x: (target.x - scale_mul(forward.x as int, d)) as i64,
            y: (target.y - scale_mul(forward.y as int, d)) as i64,
            z: (target.z - scale_mul(forward.z as int, d)) as i64,
        },
        orientation: recompose_spec(state.yaw as int, state.pitch),
    }
}

/// Write the camera pose for this frame. `forward` is the unit forward
/// direction of the new orientation, supplied by the host in quanta;
/// `hit` is the distance of the nearest probe hit along the ray from the
/// target toward the camera, if any.
pub fn place_camera(
    camera: &mut Pose,
    state: &OrbitState,
    config: &OrbitConfig,
    target: Vec3,
    forward: Vec3,
    hit: Option<i64>,
)
    requires
        config.wf(),
        state.wf(*config),
        target.bounded(POS_LIMIT as int),
        forward.bounded(SCALE as int),
        hit_wf(hit),
    ensures
        *final(camera) == camera_pose_spec(*state, *config, target, forward, hit),
        final(camera).orientation.wf(),
        final(camera).position.x == target.x - scale_mul(
            forward.x as int,
            corrected_distance_spec(config.orbit_distance as int, hit),
        ),
        final(camera).position.y == target.y - scale_mul(
            forward.y as int,
            corrected_distance_spec(config.orbit_distance as int, hit),
        ),
        final(camera).position.z == target.z - scale_mul(
            forward.z as int,
            corrected_distance_spec(config.orbit_distance as int, hit),
        ),
{
    let dist = corrected_distance(config, hit);
    proof {
        lemma_abs_mul_bound(forward.x as int, SCALE as int, dist as int, DIST_LIMIT as int);
        lemma_abs_mul_bound(forward.y as int, SCALE as int, dist as int, DIST_LIMIT as int);
        lemma_abs_mul_bound(forward.z as int, SCALE as int, dist as int, DIST_LIMIT as int);
        lemma_div_trunc_bound(forward.x * dist, SCALE as int, DIST_LIMIT as int);
        lemma_div_trunc_bound(forward.y * dist, SCALE as int, DIST_LIMIT as int);
        lemma_div_trunc_bound(forward.z * dist, SCALE as int, DIST_LIMIT as int);
    }
    let ox = mul_fx(forward.x, dist);
    let oy = mul_fx(forward.y, dist);
    let oz = mul_fx(forward.z, dist);
    camera.position = Vec3 { x: target.x - ox, y: target.y - oy, z: target.z - oz };
    camera.orientation = recompose(state.yaw, state.pitch);
}

/// A frame with zero mouse delta and no key held changes nothing: the
/// orbit angles are a fixed point of their step functions, the player's
/// displacement is zero, and the camera pose written from the stepped
/// angles equals the one written from the old angles, so an unchanged
/// target, forward direction and probe answer reproduce the previous
/// camera pose exactly.
pub proof fn lemma_idle_frame(
    state: OrbitState,
    config: OrbitConfig,
    k: KeyInput,
    s: int,
    c: int,
    dt: int,
    target: Vec3,
    forward: Vec3,
    hit: Option<i64>,
)
    requires
        config.wf(),
        state.wf(config),
        k.idle(),
    ensures
        pitch_step(state.pitch as int, 0, config) == state.pitch,
        yaw_step(state.yaw as int, 0, config) == state.yaw,
        disp_x_spec(k, s, c, dt) == 0,
        disp_z_spec(k, s, c, dt) == 0,
        ({
            let stepped = OrbitState {
                yaw: yaw_step(state.yaw as int, 0, config) as i64,
                pitch: pitch_step(state.pitch as int, 0, config) as i64,
            };
            camera_pose_spec(stepped, config, target, forward, hit) == camera_pose_spec(
                state,
                config,
                target,
                forward,
                hit,
            )
        }),
{
    lemma_idle_keys_no_motion(k, s, c, dt);
}

} // verus!
