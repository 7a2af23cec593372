//! A two-paddle ball game: fixed-point physics, collisions, scoring and the
//! menu / game / end scene machine, with its rules proved by Verus.

pub mod util;
pub mod constants;
pub mod collidable;
pub mod ball;
pub mod keys;
pub mod player;
pub mod world;
pub mod scenes;
