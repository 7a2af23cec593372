use vstd::prelude::*;
use crate::collidable::Collidable;
use crate::constants::{BALL_SIZE, BALL_SIZE_HALF, BALL_SPEED};
use crate::util::{coin_flip, lemma_step_bounds, magnitude, saturate_spec, Util, Vec2};

verus! {

/// Where the ball's centre and vertical velocity end up after it moves from
/// `y` at `vy` for `dt` milliseconds on a screen `height` tall. Past the
/// ceiling it is held against it and sent down; past the floor, held against
/// it and sent up; the speed is kept either way.
pub open spec fn vertical_step(y: int, vy: int, dt: int, height: int) -> (int, int) {
    let moved = y + vy * dt;
    if moved < BALL_SIZE_HALF {
        (BALL_SIZE_HALF as int, magnitude(vy))
    } else if moved > height - BALL_SIZE_HALF {
        (height - BALL_SIZE_HALF, -magnitude(vy))
    } else {
        (moved, vy)
    }
}

/// The square ball, positioned by its centre.
pub struct Ball {
    pub position: Vec2,
    pub velocity: Vec2,
}

impl Ball {
    /// Both velocity components are non-zero and can be negated.
    pub open spec fn wf(&self) -> bool {
        &&& self.velocity.x != 0 && self.velocity.x > i64::MIN
        &&& self.velocity.y != 0 && self.velocity.y > i64::MIN
    }

    /// The ball after it moves for `dt` milliseconds on a screen `height`
    /// tall: the horizontal move is unbounded (up to the range of `i64`), the
    /// vertical one bounces as `vertical_step` says.
    pub open spec fn updated(self, dt: int, height: int) -> Ball {
        let vertical = vertical_step(
            self.position.y as int,
            self.velocity.y as int,
            dt,
            height,
        );
        Ball {
            position: Vec2 {
                x: saturate_spec(self.position.x + self.velocity.x * dt) as i64,
                y: vertical.0 as i64,
            },
            velocity: Vec2 { x: self.velocity.x, y: vertical.1 as i64 },
        }
    }

    /// A ball centred on `(x, y)`, moving diagonally at `BALL_SPEED` along
    /// each axis, in a random direction.
    pub fn new(x: i64, y: i64) -> (r: Ball)
        ensures
            r.position.x == x && r.position.y == y,
            magnitude(r.velocity.x as int) == BALL_SPEED,
            magnitude(r.velocity.y as int) == BALL_SPEED,
            r.wf(),
    {
        let mut velocity = Vec2::new(0, 0);
        Util::randomize_vec(&mut velocity, BALL_SPEED, BALL_SPEED);
        Ball { position: Vec2::new(x, y), velocity }
    }

    /// Puts the ball at the centre of the screen, moving at `BALL_SPEED`
    /// along each axis: right if `x_positive`, else left; down if
    /// `y_positive`, else up.
    pub fn serve(&mut self, scr_width: i64, scr_height: i64, x_positive: bool, y_positive: bool)
        requires
            scr_width > 0,
            scr_height > 0,
        ensures
            final(self).position.x == scr_width / 2,
            final(self).position.y == scr_height / 2,
            final(self).velocity.x == (if x_positive { BALL_SPEED as int } else { -BALL_SPEED }),
            final(self).velocity.y == (if y_positive { BALL_SPEED as int } else { -BALL_SPEED }),
            final(self).wf(),
    {
        self.position.x = scr_width / 2;
        self.position.y = scr_height / 2;
        Util::orient_vec(&mut self.velocity, BALL_SPEED, BALL_SPEED, x_positive, y_positive);
    }

    /// Puts the ball back at the centre of the screen with a fresh random
    /// diagonal velocity of `BALL_SPEED` along each axis.
    pub fn reset(&mut self, scr_width: i64, scr_height: i64)
        requires
            scr_width > 0,
            scr_height > 0,
        ensures
            final(self).position.x == scr_width / 2,
            final(self).position.y == scr_height / 2,
            magnitude(final(self).velocity.x as int) == BALL_SPEED,
            magnitude(final(self).velocity.y as int) == BALL_SPEED,
            final(self).wf(),
    {
        let x_positive = coin_flip();
        let y_positive = coin_flip();
        self.serve(scr_width, scr_height, x_positive, y_positive);
    }

    /// Moves the ball for `dt` milliseconds and bounces it off the ceiling
    /// and the floor. The sides are left open: leaving there scores.
    pub fn update(&mut self, dt: u32, scr_height: i64)
        requires
            old(self).wf(),
            scr_height > 0,
        ensures
            final(self).wf(),
            *final(self) == old(self).updated(dt as int, scr_height as int),
            magnitude(final(self).velocity.x as int) == magnitude(old(self).velocity.x as int),
            magnitude(final(self).velocity.y as int) == magnitude(old(self).velocity.y as int),
    {
        let vx = self.velocity.x;
        let vy = self.velocity.y;
        proof {
            lemma_step_bounds(vx as int, dt as int);
            lemma_step_bounds(vy as int, dt as int);
        }
        let dx: i128 = vx as i128 * dt as i128;
        let dy: i128 = vy as i128 * dt as i128;
        self.position.x = Util::saturate(self.position.x as i128 + dx);

        let moved: i128 = self.position.y as i128 + dy;
        let speed_y: i64 = if vy < 0 {
            -vy
        } else {
            vy
        };
        if moved < BALL_SIZE_HALF as i128 {
            self.position.y = BALL_SIZE_HALF;
            self.velocity.y = speed_y;
        } else if moved > (scr_height - BALL_SIZE_HALF) as i128 {
            self.position.y = scr_height - BALL_SIZE_HALF;
            self.velocity.y = -speed_y;
        } else {
            self.position.y = moved as i64;
        }
    }
}

impl Collidable for Ball {
    open spec fn center(&self) -> Vec2 {
        self.position
    }

    open spec fn extent(&self) -> (u32, u32) {
        (BALL_SIZE, BALL_SIZE)
    }

    fn get_position(&self) -> (r: Vec2) {
        self.position
    }

    fn get_size(&self) -> (r: (u32, u32)) {
        (BALL_SIZE, BALL_SIZE)
    }
}

} // verus!
