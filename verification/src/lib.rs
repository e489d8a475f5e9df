//! Core of a Breakout-style arcade game: collision geometry, arena layout,
//! the per-tick simulation step, the pre-play countdown, and the screen state
//! machine. Everything here is pure computation over integer coordinates;
//! rendering, input polling and audio live outside this crate.
//!
//! Coordinates are measured in thousandths of a distance unit ("subunits"),
//! velocities in distance units per second (numerically equal to subunits per
//! millisecond), and time in milliseconds, so that velocity integration is
//! exact integer arithmetic.

pub mod countdown;
pub mod geometry;
pub mod layout;
pub mod session;
pub mod world;

use vstd::prelude::*;

verus! {

} // verus!
