//! The core of a small 2D farming game: a fixed grid of plantable cells,
//! each tracking soil moisture and an optional plant with a growth timer;
//! a player whose reach rectangle resolves planting, watering, harvesting
//! and pulling against the grid; and crows that pick a planted cell,
//! steer toward it, steal its plant and flee.
//!
//! Every length, speed and duration is a fixed-point `i64` count of
//! `units::SCALE` steps per world unit. Drawing, input devices and asset
//! loading are left to the caller, which works from plain data snapshots.

pub mod character;
pub mod characters;
pub mod geom;
pub mod grid;
pub mod plants;
pub mod tools;
pub mod units;
