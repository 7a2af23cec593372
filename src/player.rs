use vstd::prelude::*;
use crate::collidable::Collidable;
use crate::constants::{PADDLE_HEIGHT, PADDLE_SPEED, PADDLE_WIDTH};
use crate::keys::KeyCode;
use crate::util::{clamp_spec, lemma_step_bounds, Util, Vec2};

verus! {

/// The pair of keys that moves one paddle.
#[derive(Clone, Copy, Debug, PartialEq, Eq, Structural)]
pub struct Controls {
    pub up_key: KeyCode,
    pub down_key: KeyCode,
}

impl Controls {
    pub fn new(up_key: KeyCode, down_key: KeyCode) -> (r: Controls)
        ensures
            r.up_key == up_key,
            r.down_key == down_key,
    {
        Controls { up_key, down_key }
    }
}

/// The way a paddle moves: up is towards `y == 0`.
#[derive(Clone, Copy, Debug, PartialEq, Eq, Structural)]
pub enum Direction {
    Up,
    Down,
}

/// The centre height of a paddle `size_h` tall that moves by `delta` from
/// `y`, kept on a screen `height` tall.
pub open spec fn paddle_step(y: int, delta: int, size_h: int, height: int) -> int {
    clamp_spec(y + delta, size_h / 2, height - size_h / 2)
}

/// The centre height of a paddle after one frame of `dt` milliseconds with
/// the given keys held: up moves it by `speed * dt` towards the top, down by
/// as much towards the bottom, and the sum of both moves is then kept on the
/// screen (also when no key is held).
pub open spec fn player_step(
    y: int,
    speed: int,
    size_h: int,
    dt: int,
    up: bool,
    down: bool,
    height: int,
) -> int {
    let up_move = if up {
        speed * dt
    } else {
        0
    };
    let down_move = if down {
        speed * dt
    } else {
        0
    };
    paddle_step(y, down_move - up_move, size_h, height)
}

/// The centre height of the paddle after a run of frames, each given as
/// `(dt, up held, down held)`, starting from `y`.
pub open spec fn player_run(
    y: int,
    speed: int,
    size_h: int,
    height: int,
    frames: Seq<(u32, bool, bool)>,
) -> int
    decreases frames.len(),
{
    if frames.len() == 0 {
        y
    } else {
        let frame = frames.last();
        player_step(
            player_run(y, speed, size_h, height, frames.drop_last()),
            speed,
            size_h,
            frame.0 as int,
            frame.1,
            frame.2,
            height,
        )
    }
}

/// On a screen at least as tall as the paddle, the paddle's centre is within
/// `[size_h / 2, height - size_h / 2]` after any run of frames, whatever keys
/// are held in them, provided it started there or the run has a frame.
pub proof fn lemma_paddle_stays_on_screen(
    y: int,
    speed: int,
    size_h: int,
    height: int,
    frames: Seq<(u32, bool, bool)>,
)
    requires
        0 <= size_h <= height,
        frames.len() > 0 || size_h / 2 <= y <= height - size_h / 2,
    ensures
        size_h / 2 <= player_run(y, speed, size_h, height, frames) <= height - size_h / 2,
    decreases frames.len(),
{
    if frames.len() > 1 {
        lemma_paddle_stays_on_screen(y, speed, size_h, height, frames.drop_last());
    }
}

/// A player's bat, positioned by its centre.
pub struct Paddle {
    pub position: Vec2,
    pub size: (u32, u32),
    /// Drawing units per second.
    pub speed: i64,
}

impl Paddle {
    pub fn new(coord: Vec2, size: (u32, u32), speed: i64) -> (r: Paddle)
        ensures
            r.position == coord,
            r.size == size,
            r.speed == speed,
    {
        Paddle { position: coord, size, speed }
    }

    /// Moves the paddle for `dt` milliseconds, then keeps it on a screen
    /// `scr_height` tall.
    pub fn move_direction(&mut self, direction: Direction, dt: u32, scr_height: i64)
        requires
            scr_height > 0,
        ensures
            final(self).position.x == old(self).position.x,
            final(self).position.y == paddle_step(
                old(self).position.y as int,
                match direction {
                    Direction::Up => -(old(self).speed * dt),
                    Direction::Down => old(self).speed * dt,
                },
                old(self).size.1 as int,
                scr_height as int,
            ),
            final(self).size == old(self).size,
            final(self).speed == old(self).speed,
            old(self).size.1 <= scr_height ==> old(self).size.1 / 2 <= final(self).position.y
                <= scr_height - old(self).size.1 / 2,
    {
        match direction {
            Direction::Up => self.move_held(true, false, dt, scr_height),
            Direction::Down => self.move_held(false, true, dt, scr_height),
        }
    }

    /// Moves the paddle for one frame of `dt` milliseconds by the keys held,
    /// then keeps it on a screen `scr_height` tall.
    pub fn move_held(&mut self, up: bool, down: bool, dt: u32, scr_height: i64)
        requires
            scr_height > 0,
        ensures
            final(self).position.x == old(self).position.x,
            final(self).position.y == player_step(
                old(self).position.y as int,
                old(self).speed as int,
                old(self).size.1 as int,
                dt as int,
                up,
                down,
                scr_height as int,
            ),
            final(self).size == old(self).size,
            final(self).speed == old(self).speed,
            old(self).size.1 <= scr_height ==> old(self).size.1 / 2 <= final(self).position.y
                <= scr_height - old(self).size.1 / 2,
    {
        proof {
            lemma_step_bounds(self.speed as int, dt as int);
        }
        let distance: i128 = self.speed as i128 * dt as i128;
        let mut moved: i128 = self.position.y as i128;
        if up {
            moved = moved - distance;
        }
        if down {
            moved = moved + distance;
        }
        let height_half: i64 = (self.size.1 / 2) as i64;
        let mut y = Util::saturate(moved);
        Util::clamp(&mut y, height_half, scr_height - height_half);
        self.position.y = y;
    }

    pub fn set_position(&mut self, position: Vec2)
        ensures
            final(self).position == position,
            final(self).size == old(self).size,
            final(self).speed == old(self).speed,
    {
        self.position = position;
    }

    pub fn get_position(&self) -> (r: Vec2)
        ensures
            r == self.position,
    {
        self.position
    }
}

impl Collidable for Paddle {
    open spec fn center(&self) -> Vec2 {
        self.position
    }

    open spec fn extent(&self) -> (u32, u32) {
        self.size
    }

    fn get_position(&self) -> (r: Vec2) {
        self.position
    }

    fn get_size(&self) -> (r: (u32, u32)) {
        self.size
    }
}

/// One side of the game: a paddle, its keys, a name and a score.
pub struct Player {
    pub score: u64,
    pub controls: Controls,
    pub paddle: Paddle,
    pub name: String,
}

impl Player {
    /// A player with no points whose paddle, of the standard size and speed,
    /// is centred on `position`.
    pub fn new(controls: Controls, position: Vec2, name: String) -> (r: Player)
        ensures
            r.score == 0,
            r.controls == controls,
            r.name@ == name@,
            r.paddle.position == position,
            r.paddle.size == (PADDLE_WIDTH, PADDLE_HEIGHT),
            r.paddle.speed == PADDLE_SPEED,
    {
        let paddle = Paddle::new(position, (PADDLE_WIDTH, PADDLE_HEIGHT), PADDLE_SPEED);
        Player { score: 0, controls, paddle, name }
    }

    /// Moves the paddle for one frame of `dt` milliseconds by the keys held,
    /// and keeps it on the screen.
    pub fn update(&mut self, dt: u32, up_pressed: bool, down_pressed: bool, scr_height: i64)
        requires
            scr_height > 0,
        ensures
            final(self).paddle.position.y == player_step(
                old(self).paddle.position.y as int,
                old(self).paddle.speed as int,
                old(self).paddle.size.1 as int,
                dt as int,
                up_pressed,
                down_pressed,
                scr_height as int,
            ),
            old(self).paddle.size.1 <= scr_height ==> old(self).paddle.size.1 / 2
                <= final(self).paddle.position.y <= scr_height - old(self).paddle.size.1 / 2,
            final(self).paddle.position.x == old(self).paddle.position.x,
            final(self).paddle.size == old(self).paddle.size,
            final(self).paddle.speed == old(self).paddle.speed,
            final(self).score == old(self).score,
            final(self).controls == old(self).controls,
            final(self).name@ == old(self).name@,
    {
        self.paddle.move_held(up_pressed, down_pressed, dt, scr_height);
    }

    pub fn increment_score(&mut self)
        requires
            old(self).score < u64::MAX,
        ensures
            final(self).score == old(self).score + 1,
            final(self).controls == old(self).controls,
            final(self).name@ == old(self).name@,
            final(self).paddle == old(self).paddle,
    {
        self.score = self.score + 1;
    }

    pub fn get_score(&self) -> (r: u64)
        ensures
            r == self.score,
    {
        self.score
    }

    pub fn get_name(&self) -> (r: &str)
        ensures
            r@ == self.name@,
    {
        self.name.as_str()
    }

    pub fn get_controls(&self) -> (r: Controls)
        ensures
            r == self.controls,
    {
        self.controls
    }
}

} // verus!
