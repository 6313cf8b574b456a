//! Frame-by-frame rules for a ball that bounces inside an axis-aligned box.
//!
//! The ball flies on a closed-form trajectory between bounces. Each frame the
//! caller reports which walls the ball has reached; this crate decides which
//! wall answers and how the trajectory is relaunched from it. The arithmetic
//! on coordinates and velocities stays with the caller.

pub mod wall;
pub mod contact;
pub mod rebound;
