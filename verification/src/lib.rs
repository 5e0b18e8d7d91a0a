//! A third-person orbit-camera controller core.
//!
//! The library holds the frame logic of a walking player capsule and a
//! mouse-driven camera that orbits it: turning mouse motion into clamped
//! pitch and unbounded yaw, mapping keyboard intent through the camera's
//! yaw into a world-space step, and pulling the camera in front of the
//! nearest occluder reported by a ray probe.
//!
//! All quantities are fixed-point integers ([`fixed::SCALE`] quanta per
//! world unit or radian), so every rule is stated and proved exactly.
//! The host supplies what only it can know: key and mouse state, the frame
//! time, the sine and cosine of the camera's yaw, and the probe's answer.

pub mod camera;
pub mod fixed;
pub mod locomotion;
pub mod orbit;
pub mod types;
