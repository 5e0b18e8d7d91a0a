//! Player locomotion: keyboard intent, camera-relative direction, and
//! the per-frame step applied to the player's position.

use vstd::prelude::*;
use crate::fixed::div_trunc;
use crate::fixed::lemma_abs_mul_bound;
use crate::fixed::lemma_div_trunc_bound;
use crate::fixed::DT_LIMIT;
use crate::fixed::POS_LIMIT;
use crate::fixed::SCALE;
use crate::types::KeyInput;
use crate::types::Pose;
use crate::types::Vec3;
use vstd::arithmetic::div_mod::lemma_div_of0;
use vstd::arithmetic::div_mod::lemma_div_multiples_vanish;
use crate::fixed::scale_mul;

verus! {

/// Player walking speed: five world units per second, in quanta.
pub const MOVE_SPEED: i64 = 5_000_000;

/// The inverse square root of two in quanta: the coordinate magnitude of
/// a unit diagonal.
pub const INV_SQRT2: i64 = 707_107;

/// Largest magnitude of one frame's displacement coordinate, in quanta.
pub const STEP_LIMIT: i64 = 100_000_000;

/// Sideways intent from the key pair: right wins when both are held,
/// a defined tie-break.
pub open spec fn intent_x_spec(k: KeyInput) -> int {
    if k.right {
        1
    } else if k.left {
        -1
    } else {
        0
    }
}

/// Fore-aft intent from the key pair: back wins when both are held,
/// a defined tie-break. Forward is negative Z.
pub open spec fn intent_z_spec(k: KeyInput) -> int {
    if k.back {
        1
    } else if k.forward {
        -1
    } else {
        0
    }
}

/// Raw intent in the XZ plane, each axis independently in `{-1, 0, 1}`.
pub fn intent(k: &KeyInput) -> (v: Vec3)
    ensures
        v.x == intent_x_spec(*k),
        v.y == 0,
        v.z == intent_z_spec(*k),
{
    let x: i64 = if k.right {
        1
    } else if k.left {
        -1
    } else {
        0
    };
    let z: i64 = if k.back {
        1
    } else if k.forward {
        -1
    } else {
        0
    };
    Vec3 { x, y: 0, z }
}

/// X coordinate of the unit direction of an intent `(ix, iz)`: zero
/// stays zero, an axial intent becomes a whole unit, a diagonal one the
/// inverse square root of two per axis.
pub open spec fn norm_x_of(ix: int, iz: int) -> int {
    if ix == 0 {
        0
    } else if iz == 0 {
        ix * SCALE
    } else {
        ix * INV_SQRT2
    }
}

/// Z coordinate of the unit direction of an intent `(ix, iz)`.
pub open spec fn norm_z_of(ix: int, iz: int) -> int {
    if iz == 0 {
        0
    } else if ix == 0 {
        iz * SCALE
    } else {
        iz * INV_SQRT2
    }
}

/// An intent vector: both axes in `{-1, 0, 1}` and no vertical part.
pub open spec fn intent_vec_wf(v: Vec3) -> bool {
    &&& (v.x == -1 || v.x == 0 || v.x == 1)
    &&& v.y == 0
    &&& (v.z == -1 || v.z == 0 || v.z == 1)
}

/// Normalize an intent vector to unit length; the zero vector stays
/// zero rather than failing.
pub fn normalize_intent(v: Vec3) -> (d: Vec3)
    requires
        intent_vec_wf(v),
    ensures
        d.x == norm_x_of(v.x as int, v.z as int),
        d.y == 0,
        d.z == norm_z_of(v.x as int, v.z as int),
        d.bounded(SCALE as int),
{
    if v.x == 0 && v.z == 0 {
        Vec3 { x: 0, y: 0, z: 0 }
    } else if v.z == 0 {
        Vec3 { x: v.x * SCALE, y: 0, z: 0 }
    } else if v.x == 0 {
        Vec3 { x: 0, y: 0, z: v.z * SCALE }
    } else {
        Vec3 { x: v.x * INV_SQRT2, y: 0, z: v.z * INV_SQRT2 }
    }
}

/// X coordinate of `(vx, vz)` rotated by the yaw whose sine and cosine
/// are `s` and `c` (in quanta), around the world Y axis.
pub open spec fn rotate_x_spec(vx: int, vz: int, s: int, c: int) -> int {
    div_trunc(vx * c + vz * s, SCALE as int)
}

/// Z coordinate of `(vx, vz)` rotated by the yaw whose sine and cosine
/// are `s` and `c`.
pub open spec fn rotate_z_spec(vx: int, vz: int, s: int, c: int) -> int {
    div_trunc((-vx) * s + vz * c, SCALE as int)
}

/// Rotate a vector around the world Y axis. The host supplies the unit
/// direction of the yaw angle as `(yaw_cos, yaw_sin)` in quanta.
pub fn rotate_y(v: Vec3, yaw_sin: i64, yaw_cos: i64) -> (r: Vec3)
    requires
        v.bounded(SCALE as int),
        -SCALE <= yaw_sin <= SCALE,
        -SCALE <= yaw_cos <= SCALE,
    ensures
        r.x == rotate_x_spec(v.x as int, v.z as int, yaw_sin as int, yaw_cos as int),
        r.y == v.y,
        r.z == rotate_z_spec(v.x as int, v.z as int, yaw_sin as int, yaw_cos as int),
        r.bounded(2 * SCALE),
{
    proof {
        lemma_abs_mul_bound(v.x as int, SCALE as int, yaw_cos as int, SCALE as int);
        lemma_abs_mul_bound(v.z as int, SCALE as int, yaw_sin as int, SCALE as int);
        lemma_abs_mul_bound(-(v.x as int), SCALE as int, yaw_sin as int, SCALE as int);
        lemma_abs_mul_bound(v.z as int, SCALE as int, yaw_cos as int, SCALE as int);
        lemma_div_trunc_bound(
            v.x * yaw_cos + v.z * yaw_sin,
            SCALE as int,
            2 * SCALE,
        );
        lemma_div_trunc_bound(
            (-(v.x as int)) * yaw_sin + v.z * yaw_cos,
            SCALE as int,
            2 * SCALE,
        );
    }
    let px: i64 = v.x * yaw_cos + v.z * yaw_sin;
    let pz: i64 = (-v.x) * yaw_sin + v.z * yaw_cos;
    Vec3 { x: px / SCALE, y: v.y, z: pz / SCALE }
}

/// One frame's travel along a direction coordinate `dir` (in quanta):
/// `dir` scaled by the walking speed and by the frame time `dt`.
pub open spec fn step_spec(dir: int, dt: int) -> int {
    div_trunc(div_trunc(dir * MOVE_SPEED, SCALE as int) * dt, SCALE as int)
}

/// X coordinate of one frame's displacement under keys `k` and a camera
/// yaw with sine `s` and cosine `c`.
pub open spec fn disp_x_spec(k: KeyInput, s: int, c: int, dt: int) -> int {
    let nx = norm_x_of(intent_x_spec(k), intent_z_spec(k));
    let nz = norm_z_of(intent_x_spec(k), intent_z_spec(k));
    step_spec(rotate_x_spec(nx, nz, s, c), dt)
}

/// Z coordinate of one frame's displacement.
pub open spec fn disp_z_spec(k: KeyInput, s: int, c: int, dt: int) -> int {
    let nx = norm_x_of(intent_x_spec(k), intent_z_spec(k));
    let nz = norm_z_of(intent_x_spec(k), intent_z_spec(k));
    step_spec(rotate_z_spec(nx, nz, s, c), dt)
}

/// One frame's world-space displacement: intent, normalized, rotated by
/// the camera yaw, scaled by speed and frame time.
pub fn displacement(k: &KeyInput, yaw_sin: i64, yaw_cos: i64, dt: i64) -> (d: Vec3)
    requires
        -SCALE <= yaw_sin <= SCALE,
        -SCALE <= yaw_cos <= SCALE,
        0 <= dt <= DT_LIMIT,
    ensures
        d.x == disp_x_spec(*k, yaw_sin as int, yaw_cos as int, dt as int),
        d.y == 0,
        d.z == disp_z_spec(*k, yaw_sin as int, yaw_cos as int, dt as int),
        d.bounded(STEP_LIMIT as int),
{
    let raw = intent(k);
    let unit = normalize_intent(raw);
    let dir = rotate_y(unit, yaw_sin, yaw_cos);
    let sx = step(dir.x, dt);
    let sz = step(dir.z, dt);
    Vec3 { x: sx, y: 0, z: sz }
}

/// Scale one direction coordinate by speed and frame time.
fn step(dir: i64, dt: i64) -> (s: i64)
    requires
        -2 * SCALE <= dir <= 2 * SCALE,
        0 <= dt <= DT_LIMIT,
    ensures
        s == step_spec(dir as int, dt as int),
        -STEP_LIMIT <= s <= STEP_LIMIT,
{
    proof {
        lemma_abs_mul_bound(dir as int, 2 * SCALE, MOVE_SPEED as int, MOVE_SPEED as int);
        lemma_div_trunc_bound(dir * MOVE_SPEED, SCALE as int, 2 * MOVE_SPEED);
        lemma_abs_mul_bound(
            div_trunc(dir * MOVE_SPEED, SCALE as int),
            2 * MOVE_SPEED,
            dt as int,
            DT_LIMIT as int,
        );
        lemma_div_trunc_bound(
            div_trunc(dir * MOVE_SPEED, SCALE as int) * dt,
            SCALE as int,
            STEP_LIMIT as int,
        );
    }
    let scaled: i64 = (dir * MOVE_SPEED) / SCALE;
    (scaled * dt) / SCALE
}

/// Advance the player one frame: read the keys, steer by the camera's
/// yaw, and move the position; the orientation is left alone.
pub fn update_player(player: &mut Pose, k: &KeyInput, yaw_sin: i64, yaw_cos: i64, dt: i64)
    requires
        old(player).position.bounded(POS_LIMIT as int),
        -SCALE <= yaw_sin <= SCALE,
        -SCALE <= yaw_cos <= SCALE,
        0 <= dt <= DT_LIMIT,
    ensures
        final(player).position.x == old(player).position.x + disp_x_spec(
            *k,
            yaw_sin as int,
            yaw_cos as int,
            dt as int,
        ),
        final(player).position.y == old(player).position.y,
        final(player).position.z == old(player).position.z + disp_z_spec(
            *k,
            yaw_sin as int,
            yaw_cos as int,
            dt as int,
        ),
        final(player).orientation == old(player).orientation,
{
    let d = displacement(k, yaw_sin, yaw_cos, dt);
    player.position = Vec3 {
        x: player.position.x + d.x,
        y: player.position.y,
        z: player.position.z + d.z,
    };
}

/// With the camera's yaw at zero (sine zero, cosine one) and only the
/// forward key held, a frame moves the player by exactly the walking
/// speed scaled by the frame time along negative world Z, and not at
/// all along X.
pub proof fn lemma_forward_key_moves_negative_z(k: KeyInput, dt: int)
    requires
        k.forward,
        !k.back,
        !k.left,
        !k.right,
        0 <= dt,
    ensures
        disp_x_spec(k, 0, SCALE as int, dt) == 0,
        disp_z_spec(k, 0, SCALE as int, dt) == -scale_mul(MOVE_SPEED as int, dt),
{
    lemma_div_of0(SCALE as int);
    let s = SCALE as int;
    let ms = MOVE_SPEED as int;
    let nx = norm_x_of(intent_x_spec(k), intent_z_spec(k));
    let nz = norm_z_of(intent_x_spec(k), intent_z_spec(k));
    assert(nx == 0 && nz == -s);
    assert(nx * s == 0 && nz * 0 == 0 && (-nx) * 0 == 0) by (nonlinear_arith)
        requires
            nx == 0,
    ;
    assert(rotate_x_spec(nx, nz, 0, s) == 0);
    assert(0 * ms == 0 && 0 * dt == 0) by (nonlinear_arith);
    assert(step_spec(0, dt) == 0);
    assert(nz * s == -(s * s)) by (nonlinear_arith)
        requires
            nz == -s,
    ;
    lemma_div_multiples_vanish(s, s);
    assert(div_trunc(-(s * s), s) == -s);
    assert(rotate_z_spec(nx, nz, 0, s) == -s);
    assert((-s) * ms == -(s * ms)) by (nonlinear_arith);
    lemma_div_multiples_vanish(ms, s);
    assert(div_trunc(-(s * ms), s) == -ms);
    assert(ms * dt >= 0) by (nonlinear_arith)
        requires
            0 <= dt,
            ms > 0,
    ;
    assert((-ms) * dt == -(ms * dt)) by (nonlinear_arith);
    assert(step_spec(-s, dt) == div_trunc((-ms) * dt, s));
    assert(div_trunc(-(ms * dt), s) == -div_trunc(ms * dt, s));
}

/// Squared length, in quanta squared, of the normalized direction that
/// the keys produce.
pub open spec fn dir_sq_len(k: KeyInput) -> int {
    let nx = norm_x_of(intent_x_spec(k), intent_z_spec(k));
    let nz = norm_z_of(intent_x_spec(k), intent_z_spec(k));
    nx * nx + nz * nz
}

/// An intent along a single axis normalizes to exactly one unit of
/// length (squared).
pub proof fn lemma_axial_unit_speed(k: KeyInput)
    requires
        intent_x_spec(k) == 0 || intent_z_spec(k) == 0,
        intent_x_spec(k) != 0 || intent_z_spec(k) != 0,
    ensures
        dir_sq_len(k) == SCALE * SCALE,
{
    let s = SCALE as int;
    let nx = norm_x_of(intent_x_spec(k), intent_z_spec(k));
    let nz = norm_z_of(intent_x_spec(k), intent_z_spec(k));
    assert((nx == s && nz == 0) || (nx == -s && nz == 0) || (nx == 0 && nz == s) || (nx == 0
        && nz == -s));
    assert(nx * nx + nz * nz == s * s) by (nonlinear_arith)
        requires
            (nx == s && nz == 0) || (nx == -s && nz == 0) || (nx == 0 && nz == s) || (nx == 0
                && nz == -s),
    ;
}

/// A diagonal intent (both axes engaged, by keys that are not opposed)
/// normalizes to the same length as an axial one, up to the fixed-point
/// quantum: its squared length differs from one square unit by less
/// than one part in a million. Normalization removes the diagonal
/// speed boost, and rotation by the camera yaw preserves length, so
/// diagonal movement is as fast as axial movement.
pub proof fn lemma_diagonal_speed_matches_axial(k: KeyInput)
    requires
        intent_x_spec(k) != 0,
        intent_z_spec(k) != 0,
    ensures
        dir_sq_len(k) == 2 * INV_SQRT2 * INV_SQRT2,
        SCALE * SCALE - SCALE < dir_sq_len(k) < SCALE * SCALE + SCALE,
{
    let r = INV_SQRT2 as int;
    assert((-r) * (-r) == r * r) by (nonlinear_arith);
}

/// Rotation around the Y axis scales a squared length by exactly the
/// squared length of `(c, s)`: with a unit `(c, s)` it preserves length,
/// so steering the intent by the camera yaw never changes the speed.
/// (The statement is about the exact products, before the fixed-point
/// rescaling inside `rotate_y` truncates them.)
pub proof fn lemma_rotation_preserves_sq_len(vx: int, vz: int, s: int, c: int)
    ensures
        (vx * c + vz * s) * (vx * c + vz * s) + ((-vx) * s + vz * c) * ((-vx) * s + vz * c) == (vx
            * vx + vz * vz) * (s * s + c * c),
{
    let a = vx * c + vz * s;
    let b = (-vx) * s + vz * c;
    assert(a * a == (vx * c) * (vx * c) + 2 * ((vx * c) * (vz * s)) + (vz * s) * (vz * s))
        by (nonlinear_arith)
        requires
            a == vx * c + vz * s,
    ;
    assert(b * b == (vx * s) * (vx * s) - 2 * ((vx * s) * (vz * c)) + (vz * c) * (vz * c))
        by (nonlinear_arith)
        requires
            b == (-vx) * s + vz * c,
    ;
    assert((vx * c) * (vz * s) == (vx * s) * (vz * c)) by (nonlinear_arith);
    assert((vx * c) * (vx * c) == (vx * vx) * (c * c)) by (nonlinear_arith);
    assert((vz * s) * (vz * s) == (vz * vz) * (s * s)) by (nonlinear_arith);
    assert((vx * s) * (vx * s) == (vx * vx) * (s * s)) by (nonlinear_arith);
    assert((vz * c) * (vz * c) == (vz * vz) * (c * c)) by (nonlinear_arith);
    assert((vx * vx) * (c * c) + (vx * vx) * (s * s) == (vx * vx) * (s * s + c * c))
        by (nonlinear_arith);
    assert((vz * vz) * (s * s) + (vz * vz) * (c * c) == (vz * vz) * (s * s + c * c))
        by (nonlinear_arith);
    assert((vx * vx) * (s * s + c * c) + (vz * vz) * (s * s + c * c) == (vx * vx + vz * vz) * (s
        * s + c * c)) by (nonlinear_arith);
}

/// With no movement key held the displacement is zero for every yaw and
/// frame time: normalizing the zero intent yields zero, never an error.
pub proof fn lemma_idle_keys_no_motion(k: KeyInput, s: int, c: int, dt: int)
    requires
        k.idle(),
    ensures
        disp_x_spec(k, s, c, dt) == 0,
        disp_z_spec(k, s, c, dt) == 0,
{
    lemma_div_of0(SCALE as int);
    assert(0 * c == 0) by (nonlinear_arith);
    assert(0 * s == 0) by (nonlinear_arith);
    assert(0 * MOVE_SPEED == 0) by (nonlinear_arith);
    assert(0 * dt == 0) by (nonlinear_arith);
}

} // verus!
