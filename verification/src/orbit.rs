//! Orbit configuration and state: how mouse motion becomes clamped pitch
//! and unbounded yaw, and how a probe hit shortens the orbit radius.

use vstd::prelude::*;
use crate::fixed::clamp_spec;
use crate::fixed::clamp_i64;
use crate::fixed::DELTA_LIMIT;
use crate::fixed::DIST_LIMIT;
use crate::fixed::QUARTER_TURN;
use crate::fixed::TURN;

verus! {

/// Gap kept between the camera and an occluding surface, 0.05 world
/// units, so a pulled-in camera never sits on the surface itself.
pub const HIT_MARGIN: i64 = 50_000;

/// Once-set configuration of the orbiting camera.
#[derive(Clone, Copy, Debug, PartialEq, Eq, Structural)]
pub struct OrbitConfig {
    /// Nominal camera distance from the target, in quanta. Positive.
    pub orbit_distance: i64,
    /// Pitch gained per mouse count, in angle quanta.
    pub pitch_speed: i64,
    /// Yaw gained per mouse count, in angle quanta.
    pub yaw_speed: i64,
    /// Lower end of the pitch clamp, strictly above straight down.
    pub pitch_min: i64,
    /// Upper end of the pitch clamp, at most level.
    pub pitch_max: i64,
}

impl OrbitConfig {
    /// The invariants of a usable configuration: a positive orbit radius,
    /// positive bounded speeds, and a pitch range inside
    /// `(-QUARTER_TURN, 0]` so the camera can never flip over a pole.
    pub open spec fn wf(self) -> bool {
        &&& 0 < self.orbit_distance <= DIST_LIMIT
        &&& 0 < self.pitch_speed <= TURN
        &&& 0 < self.yaw_speed <= TURN
        &&& -QUARTER_TURN < self.pitch_min < self.pitch_max <= 0
    }
}

impl Default for OrbitConfig {
    /// Ten units of orbit radius, 0.003 and 0.004 radians per mouse
    /// count, and a pitch range from just above straight down to level.
    fn default() -> (c: Self)
        ensures
            c.wf(),
            c.orbit_distance == 10_000_000,
            c.pitch_speed == 3_000,
            c.yaw_speed == 4_000,
            c.pitch_min == -QUARTER_TURN + 10_000,
            c.pitch_max == 0,
    {
        OrbitConfig {
            orbit_distance: 10_000_000,
            pitch_speed: 3_000,
            yaw_speed: 4_000,
            pitch_min: -QUARTER_TURN + 10_000,
            pitch_max: 0,
        }
    }
}

/// The camera's orientation angles, persisting across frames.
#[derive(Clone, Copy, Debug, PartialEq, Eq, Structural)]
pub struct OrbitState {
    /// Yaw in angle quanta; free to grow without bound.
    pub yaw: i64,
    /// Pitch in angle quanta; re-clamped on every update.
    pub pitch: i64,
}

impl OrbitState {
    /// Pitch inside the configured clamp range.
    pub open spec fn wf(self, c: OrbitConfig) -> bool {
        c.pitch_min <= self.pitch <= c.pitch_max
    }

    /// Start from host-chosen angles, forcing the pitch into range.
    pub fn new(config: &OrbitConfig, yaw: i64, pitch: i64) -> (s: OrbitState)
        requires
            config.wf(),
        ensures
            s.yaw == yaw,
            s.pitch == clamp_spec(pitch as int, config.pitch_min as int, config.pitch_max as int),
            s.wf(*config),
    {
        OrbitState { yaw, pitch: clamp_i64(pitch, config.pitch_min, config.pitch_max) }
    }
}

/// The pitch after one frame of mouse motion `dy`: moving the mouse up
/// (negative `dy`) raises the view, and the sum is clamped into range.
pub open spec fn pitch_step(pitch: int, dy: int, c: OrbitConfig) -> int {
    clamp_spec(pitch + (-dy) * c.pitch_speed, c.pitch_min as int, c.pitch_max as int)
}

/// The yaw after one frame of mouse motion `dx`; never clamped or
/// wrapped, so the state remembers whole turns.
pub open spec fn yaw_step(yaw: int, dx: int, c: OrbitConfig) -> int {
    yaw - dx * c.yaw_speed
}

/// Advance yaw and pitch by one frame of accumulated mouse motion.
pub fn advance(state: &mut OrbitState, config: &OrbitConfig, dx: i64, dy: i64)
    requires
        config.wf(),
        old(state).wf(*config),
        -DELTA_LIMIT <= dx <= DELTA_LIMIT,
        -DELTA_LIMIT <= dy <= DELTA_LIMIT,
        i64::MIN <= yaw_step(old(state).yaw as int, dx as int, *config) <= i64::MAX,
    ensures
        final(state).pitch == pitch_step(old(state).pitch as int, dy as int, *config),
        final(state).yaw == yaw_step(old(state).yaw as int, dx as int, *config),
        final(state).wf(*config),
{
    proof {
        crate::fixed::lemma_abs_mul_bound(
            -(dy as int),
            DELTA_LIMIT as int,
            config.pitch_speed as int,
            TURN as int,
        );
        crate::fixed::lemma_abs_mul_bound(
            dx as int,
            DELTA_LIMIT as int,
            config.yaw_speed as int,
            TURN as int,
        );
    }
    let delta_pitch: i64 = -dy * config.pitch_speed;
    let delta_yaw: i64 = dx * config.yaw_speed;
    state.pitch = clamp_i64(state.pitch + delta_pitch, config.pitch_min, config.pitch_max);
    state.yaw = state.yaw - delta_yaw;
}

/// The pitch after a whole run of frames, each with its mouse motion.
pub open spec fn pitch_after(pitch: int, dys: Seq<int>, c: OrbitConfig) -> int
    decreases dys.len(),
{
    if dys.len() == 0 {
        pitch
    } else {
        pitch_step(pitch_after(pitch, dys.drop_last(), c), dys.last(), c)
    }
}

/// However long the run of mouse updates, a pitch that starts inside the
/// clamp range stays inside it.
pub proof fn lemma_pitch_stays_clamped(pitch: int, dys: Seq<int>, c: OrbitConfig)
    requires
        c.wf(),
        c.pitch_min <= pitch <= c.pitch_max,
    ensures
        c.pitch_min <= pitch_after(pitch, dys, c) <= c.pitch_max,
    decreases dys.len(),
{
    if dys.len() > 0 {
        lemma_pitch_stays_clamped(pitch, dys.drop_last(), c);
    }
}

/// The camera distance the probe allows: the nominal orbit radius in
/// open space or when the nearest hit is at least that far, and the hit
/// distance less `HIT_MARGIN` when something stands closer.
pub open spec fn corrected_distance_spec(nominal: int, hit: Option<i64>) -> int {
    match hit {
        Option::None => nominal,
        Option::Some(h) => if h < nominal {
            h - HIT_MARGIN
        } else {
            nominal
        },
    }
}

/// Every coordinate a probe may report: a nonnegative bounded distance.
pub open spec fn hit_wf(hit: Option<i64>) -> bool {
    match hit {
        Option::None => true,
        Option::Some(h) => 0 <= h <= DIST_LIMIT,
    }
}

/// Shorten the orbit radius when the nearest probe hit stands closer
/// than the camera would; `hit` is the distance of that nearest hit, and
/// farther hits play no part.
pub fn corrected_distance(config: &OrbitConfig, hit: Option<i64>) -> (d: i64)
    requires
        config.wf(),
        hit_wf(hit),
    ensures
        d == corrected_distance_spec(config.orbit_distance as int, hit),
        -HIT_MARGIN <= d <= DIST_LIMIT,
{
    match hit {
        Option::None => config.orbit_distance,
        Option::Some(h) => {
            if h < config.orbit_distance {
                h - HIT_MARGIN
            } else {
                config.orbit_distance
            }
        },
    }
}

} // verus!
