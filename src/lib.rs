//! The simulation core of a "catch the falling apples" arcade game.
//!
//! Lengths are integers in micro-units (a millionth of a pixel), durations are
//! integers in microseconds, and speeds are in pixels per second, which is the
//! same number as micro-units per microsecond. A displacement is therefore the
//! exact product `speed * dt`.
//!
//! - `geometry`: points, boxes, the play area and the overlap test.
//! - `entities`: the player, the falling objects and how they move.
//! - `collision`: the catch test and the collision resolver.
//! - `spawner`: the repeating spawn timer and the geometry of a new object.
//! - `session`: one game session, the per-tick `advance` and the laws that hold of it.
//! - `phase`: the phase state machine around a session.

pub mod geometry;
pub mod entities;
pub mod collision;
pub mod spawner;
pub mod session;
pub mod phase;
