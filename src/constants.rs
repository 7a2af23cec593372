use vstd::prelude::*;

verus! {

/// Fixed-point steps in one drawing unit.
pub const UNIT: i64 = 1000;

/// Gap between a screen edge and the paddle on that side.
pub const PADDING: i64 = 40 * UNIT;

pub const PADDLE_WIDTH: u32 = 20000;

pub const PADDLE_HEIGHT: u32 = 100000;

/// Drawing units per second.
pub const PADDLE_SPEED: i64 = 600;

/// Side of the square ball.
pub const BALL_SIZE: u32 = 30000;

pub const BALL_SIZE_HALF: i64 = 15 * UNIT;

/// Drawing units per second along each axis.
pub const BALL_SPEED: i64 = 400;

} // verus!
