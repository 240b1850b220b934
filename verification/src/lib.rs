//! Verified core of a minimal real-time interactive rendering harness.
//!
//! The crate models the three coupled pieces of the harness — GPU device and
//! surface lifecycle, a fixed instanced-draw renderer that re-uploads its
//! whole instance list every frame, and an input-driven simulation loop that
//! integrates rotation state from discrete events — as verified code over
//! plain integer values. Continuous quantities (positions, angles, rates,
//! scales) are carried in millionths of their natural unit, so an angle of
//! one radian is stored as `1_000_000` microradians. The unverified shell
//! that owns the actual window and GPU handles converts at the boundary.

pub mod angle;
pub mod device;
pub mod instance;
pub mod laws;
pub mod renderer;
pub mod sim;
