use vstd::prelude::*;
use crate::ball::Ball;
use crate::collidable::{bounds, check_collision, rects_overlap};
use crate::constants::{BALL_SIZE, BALL_SPEED, PADDING, PADDLE_HEIGHT, PADDLE_SPEED, PADDLE_WIDTH};
use crate::keys::{is_held, KeyCode};
use crate::player::{player_step, Controls, Paddle, Player};
use crate::util::{magnitude, Vec2};

verus! {

/// The centre column of the left paddle.
pub open spec fn left_paddle_x() -> int {
    PADDLE_WIDTH / 2 + PADDING
}

/// The centre column of the right paddle on a screen `width` wide.
pub open spec fn right_paddle_x(width: int) -> int {
    width - PADDLE_WIDTH / 2 - PADDING
}

/// Whether `p` is a player at the start of a round: no points, the standard
/// paddle centred at column `x` halfway down a screen `height` tall.
pub open spec fn is_fresh_player(
    p: Player,
    x: int,
    height: int,
    controls: Controls,
    name: Seq<char>,
) -> bool {
    &&& p.score == 0
    &&& p.controls == controls
    &&& p.name@ == name
    &&& p.paddle.position.x == x
    &&& p.paddle.position.y == height / 2
    &&& p.paddle.size == (PADDLE_WIDTH, PADDLE_HEIGHT)
    &&& p.paddle.speed == PADDLE_SPEED
}

/// Whether the paddle and the ball overlap.
pub open spec fn paddle_hits(p: Paddle, b: Ball) -> bool {
    rects_overlap(bounds(p.position, p.size), bounds(b.position, (BALL_SIZE, BALL_SIZE)))
}

/// The horizontal velocity after the paddles have had their say: the left
/// paddle sends the ball right, the right paddle sends it left (and has the
/// last word when both touch it). The speed is kept.
pub open spec fn deflected(vx: int, hits_left: bool, hits_right: bool) -> int {
    if hits_right {
        -magnitude(vx)
    } else if hits_left {
        magnitude(vx)
    } else {
        vx
    }
}

/// Whether the ball at column `x` has left the screen on the left, which
/// wins a point for player 2.
pub open spec fn point_to_player_2(x: int) -> bool {
    x < 0
}

/// Whether the ball at column `x` has left a screen `width` wide on the
/// right, which wins a point for player 1.
pub open spec fn point_to_player_1(x: int, width: int) -> bool {
    x > width
}

/// The points that player 1 and player 2 win with the ball at column `x` on
/// a screen `width` wide.
pub open spec fn points_awarded(x: int, width: int) -> (int, int) {
    (
        if point_to_player_1(x, width) {
            1
        } else {
            0
        },
        if point_to_player_2(x) {
            1
        } else {
            0
        },
    )
}

/// The gameplay state: both players, the ball, the score that wins, and the
/// length of the current frame.
pub struct World {
    pub player_1: Player,
    pub player_2: Player,
    pub ball: Ball,
    pub max_score: u64,
    /// Milliseconds.
    pub dt: u32,
}

impl World {
    /// The name of the player whose score has reached `max_score`, player 1
    /// first; none while both are below it.
    pub open spec fn winner(&self) -> Option<Seq<char>> {
        if self.player_1.score >= self.max_score {
            Some(self.player_1.name@)
        } else if self.player_2.score >= self.max_score {
            Some(self.player_2.name@)
        } else {
            None
        }
    }

    /// What one `tick` does to the world, with the keys in `held` held down on a
    /// screen `height` tall.
    pub open spec fn ticked(before: World, after: World, held: Seq<KeyCode>, height: int) -> bool {
        &&& after.player_1.paddle.position.y == player_step(
            before.player_1.paddle.position.y as int,
            before.player_1.paddle.speed as int,
            before.player_1.paddle.size.1 as int,
            before.dt as int,
            held.contains(before.player_1.controls.up_key),
            held.contains(before.player_1.controls.down_key),
            height,
        )
        &&& after.player_2.paddle.position.y == player_step(
            before.player_2.paddle.position.y as int,
            before.player_2.paddle.speed as int,
            before.player_2.paddle.size.1 as int,
            before.dt as int,
            held.contains(before.player_2.controls.up_key),
            held.contains(before.player_2.controls.down_key),
            height,
        )
        &&& after.player_1.paddle.position.x == before.player_1.paddle.position.x
        &&& after.player_2.paddle.position.x == before.player_2.paddle.position.x
        &&& after.player_1.paddle.size == before.player_1.paddle.size
        &&& after.player_2.paddle.size == before.player_2.paddle.size
        &&& after.player_1.paddle.speed == before.player_1.paddle.speed
        &&& after.player_2.paddle.speed == before.player_2.paddle.speed
        &&& after.player_1.score == before.player_1.score
        &&& after.player_2.score == before.player_2.score
        &&& after.player_1.controls == before.player_1.controls
        &&& after.player_2.controls == before.player_2.controls
        &&& after.player_1.name@ == before.player_1.name@
        &&& after.player_2.name@ == before.player_2.name@
        &&& ({
            let moved = before.ball.updated(before.dt as int, height);
            &&& after.ball.position == moved.position
            &&& after.ball.velocity.y == moved.velocity.y
            &&& after.ball.velocity.x == deflected(
                moved.velocity.x as int,
                paddle_hits(after.player_1.paddle, moved),
                paddle_hits(after.player_2.paddle, moved),
            )
        })
        &&& after.ball.wf()
        &&& after.max_score == before.max_score
        &&& after.dt == before.dt
    }

    /// What one `check_score` does to the world on a screen `width` by
    /// `height`. Of a fresh serve only its speed is fixed: its direction is
    /// drawn at random.
    pub open spec fn scored(before: World, after: World, width: int, height: int) -> bool {
        &&& after.player_1.score == before.player_1.score + points_awarded(
            before.ball.position.x as int,
            width,
        ).0
        &&& after.player_2.score == before.player_2.score + points_awarded(
            before.ball.position.x as int,
            width,
        ).1
        &&& point_to_player_1(before.ball.position.x as int, width)
            || point_to_player_2(before.ball.position.x as int) ==> {
            &&& after.ball.position.x == width / 2
            &&& after.ball.position.y == height / 2
            &&& magnitude(after.ball.velocity.x as int) == BALL_SPEED
            &&& magnitude(after.ball.velocity.y as int) == BALL_SPEED
            &&& after.ball.wf()
        }
        &&& !point_to_player_1(before.ball.position.x as int, width)
            && !point_to_player_2(before.ball.position.x as int) ==> after.ball == before.ball
        &&& after.player_1.paddle == before.player_1.paddle
        &&& after.player_2.paddle == before.player_2.paddle
        &&& after.player_1.controls == before.player_1.controls
        &&& after.player_2.controls == before.player_2.controls
        &&& after.player_1.name@ == before.player_1.name@
        &&& after.player_2.name@ == before.player_2.name@
        &&& after.max_score == before.max_score
        &&& after.dt == before.dt
    }

    /// What `reset` does to the world on a screen `width` by `height`.
    pub open spec fn restarted(before: World, after: World, width: int, height: int) -> bool {
        &&& is_fresh_player(
            after.player_1,
            left_paddle_x(),
            height,
            Controls { up_key: KeyCode::W, down_key: KeyCode::S },
            "Player 1"@,
        )
        &&& is_fresh_player(
            after.player_2,
            right_paddle_x(width),
            height,
            Controls { up_key: KeyCode::Up, down_key: KeyCode::Down },
            "Player 2"@,
        )
        &&& after.ball == before.ball
        &&& after.max_score == before.max_score
        &&& after.dt == before.dt
    }

    /// A round about to start on a screen `scr_width` by `scr_height`.
    pub fn new(scr_width: i64, scr_height: i64, max_score: u64) -> (r: World)
        requires
            scr_width > 0,
            scr_height > 0,
        ensures
            is_fresh_player(
                r.player_1,
                left_paddle_x(),
                scr_height as int,
                Controls { up_key: KeyCode::W, down_key: KeyCode::S },
                "Player 1"@,
            ),
            is_fresh_player(
                r.player_2,
                right_paddle_x(scr_width as int),
                scr_height as int,
                Controls { up_key: KeyCode::Up, down_key: KeyCode::Down },
                "Player 2"@,
            ),
            r.ball.position.x == scr_width / 2,
            r.ball.position.y == scr_height / 2,
            magnitude(r.ball.velocity.x as int) == BALL_SPEED,
            magnitude(r.ball.velocity.y as int) == BALL_SPEED,
            r.ball.wf(),
            r.max_score == max_score,
            r.dt == 0,
    {
        let player_1 = Self::first_player(scr_height);
        let player_2 = Self::second_player(scr_width, scr_height);
        let ball = Ball::new(scr_width / 2, scr_height / 2);
        World { player_1, player_2, ball, max_score, dt: 0 }
    }

    fn first_player(scr_height: i64) -> (r: Player)
        requires
            scr_height > 0,
        ensures
            is_fresh_player(
                r,
                left_paddle_x(),
                scr_height as int,
                Controls { up_key: KeyCode::W, down_key: KeyCode::S },
                "Player 1"@,
            ),
    {
        Player::new(
            Controls::new(KeyCode::W, KeyCode::S),
            Vec2::new((PADDLE_WIDTH / 2) as i64 + PADDING, scr_height / 2),
            String::from_str("Player 1"),
        )
    }

    fn second_player(scr_width: i64, scr_height: i64) -> (r: Player)
        requires
            scr_width > 0,
            scr_height > 0,
        ensures
            is_fresh_player(
                r,
                right_paddle_x(scr_width as int),
                scr_height as int,
                Controls { up_key: KeyCode::Up, down_key: KeyCode::Down },
                "Player 2"@,
            ),
    {
        Player::new(
            Controls::new(KeyCode::Up, KeyCode::Down),
            Vec2::new(scr_width - (PADDLE_WIDTH / 2) as i64 - PADDING, scr_height / 2),
            String::from_str("Player 2"),
        )
    }

    pub fn get_dt(&self) -> (r: u32)
        ensures
            r == self.dt,
    {
        self.dt
    }

    pub fn update_delta_time(&mut self, new_value: u32)
        ensures
            final(self).dt == new_value,
            final(self).player_1 == old(self).player_1,
            final(self).player_2 == old(self).player_2,
            final(self).ball == old(self).ball,
            final(self).max_score == old(self).max_score,
    {
        self.dt = new_value;
    }

    /// One simulation step of `dt` milliseconds: each paddle moves by the keys
    /// held, the ball moves and bounces off the ceiling and the floor, and a
    /// paddle that the ball touches turns it back towards the other side.
    pub fn tick(&mut self, held: &Vec<KeyCode>, scr_height: i64)
        requires
            old(self).ball.wf(),
            scr_height > 0,
        ensures
            World::ticked(*old(self), *final(self), held@, scr_height as int),
            old(self).player_1.paddle.size.1 <= scr_height ==> old(self).player_1.paddle.size.1 / 2
                <= final(self).player_1.paddle.position.y <= scr_height
                - old(self).player_1.paddle.size.1 / 2,
            old(self).player_2.paddle.size.1 <= scr_height ==> old(self).player_2.paddle.size.1 / 2
                <= final(self).player_2.paddle.position.y <= scr_height
                - old(self).player_2.paddle.size.1 / 2,
            magnitude(final(self).ball.velocity.x as int) == magnitude(
                old(self).ball.velocity.x as int,
            ),
            magnitude(final(self).ball.velocity.y as int) == magnitude(
                old(self).ball.velocity.y as int,
            ),
    {
        let dt = self.dt;
        let controls_1 = self.player_1.get_controls();
        let controls_2 = self.player_2.get_controls();
        self.player_1.update(
            dt,
            is_held(held, controls_1.up_key),
            is_held(held, controls_1.down_key),
            scr_height,
        );
        self.player_2.update(
            dt,
            is_held(held, controls_2.up_key),
            is_held(held, controls_2.down_key),
            scr_height,
        );

        self.ball.update(dt, scr_height);

        if check_collision(&self.player_1.paddle, &self.ball) {
            let vx = self.ball.velocity.x;
            self.ball.velocity.x = if vx < 0 {
                -vx
            } else {
                vx
            };
        }
        if check_collision(&self.player_2.paddle, &self.ball) {
            let vx = self.ball.velocity.x;
            self.ball.velocity.x = if vx < 0 {
                vx
            } else {
                -vx
            };
        }
    }
    /// Awards a point to the player on whose side the ball did not leave the
    /// screen, if it left, and serves again from the centre; then reports the
    /// winner, if a score has reached `max_score`. The round's state is left
    /// for the end screen to read: a new round starts with `reset`.
    pub fn check_score(&mut self, scr_width: i64, scr_height: i64) -> (r: Option<String>)
        requires
            scr_width > 0,
            scr_height > 0,
            old(self).player_1.score < u64::MAX,
            old(self).player_2.score < u64::MAX,
        ensures
            World::scored(*old(self), *final(self), scr_width as int, scr_height as int),
            !(final(self).player_1.score > old(self).player_1.score && final(self).player_2.score
                > old(self).player_2.score),
            match r {
                Some(name) => final(self).winner() == Some(name@),
                None => final(self).winner() is None,
            },
    {
        if self.ball.position.x < 0 {
            self.player_2.increment_score();
            self.ball.reset(scr_width, scr_height);
        }
        if self.ball.position.x > scr_width {
            self.player_1.increment_score();
            self.ball.reset(scr_width, scr_height);
        }

        if self.player_1.get_score() >= self.max_score {
            return Some(self.player_1.name.clone());
        }
        if self.player_2.get_score() >= self.max_score {
            return Some(self.player_2.name.clone());
        }
        None
    }

    /// Starts a new round: both players get their starting paddles back and
    /// no points. The ball, the winning score and the frame length are kept.
    pub fn reset(&mut self, scr_width: i64, scr_height: i64)
        requires
            scr_width > 0,
            scr_height > 0,
        ensures
            World::restarted(*old(self), *final(self), scr_width as int, scr_height as int),
    {
        self.player_1 = Self::first_player(scr_height);
        self.player_2 = Self::second_player(scr_width, scr_height);
    }
}

/// A ball cannot leave a screen of positive width on both sides at once, so
/// one call of `World::check_score` awards at most one point.
pub proof fn lemma_scoring_is_exclusive(ball_x: int, scr_width: int)
    requires
        scr_width > 0,
    ensures
        points_awarded(ball_x, scr_width).0 + points_awarded(ball_x, scr_width).1 <= 1,
{
}

} // verus!
