use pong::ball::Ball;
use pong::collidable::check_collision;
use pong::constants::{BALL_SIZE_HALF, BALL_SPEED, PADDING, PADDLE_HEIGHT, PADDLE_SPEED, UNIT};
use pong::keys::{is_held, KeyCode};
use pong::player::{Controls, Direction, Paddle, Player};
use pong::util::{Util, Vec2};
use pong::world::World;

const WIDTH: i64 = 800 * UNIT;
const HEIGHT: i64 = 600 * UNIT;

fn ball_at(x: i64, y: i64, vx: i64, vy: i64) -> Ball {
    let mut ball = Ball::new(x, y);
    ball.velocity = Vec2::new(vx, vy);
    ball
}

#[test]
fn clamp_keeps_values_in_range() {
    let mut v: i64 = 5;
    Util::clamp(&mut v, 10, 20);
    assert_eq!(v, 10);
    let mut v: i64 = 25;
    Util::clamp(&mut v, 10, 20);
    assert_eq!(v, 20);
    let mut v: i64 = 15;
    Util::clamp(&mut v, 10, 20);
    assert_eq!(v, 15);
    let mut v: i64 = 20;
    Util::clamp(&mut v, 10, 20);
    assert_eq!(v, 20);
}

#[test]
fn saturate_stops_at_the_range_of_i64() {
    assert_eq!(Util::saturate(i128::from(i64::MAX) + 1), i64::MAX);
    assert_eq!(Util::saturate(i128::from(i64::MIN) - 7), i64::MIN);
    assert_eq!(Util::saturate(-42), -42);
}

#[test]
fn orient_vec_picks_each_sign() {
    let mut v = Vec2::new(0, 0);
    Util::orient_vec(&mut v, 3, 4, true, false);
    assert_eq!(v, Vec2::new(3, -4));
    Util::orient_vec(&mut v, 3, 4, false, true);
    assert_eq!(v, Vec2::new(-3, 4));
}

#[test]
fn randomize_vec_keeps_magnitudes() {
    for _ in 0..50 {
        let mut v = Vec2::new(0, 0);
        Util::randomize_vec(&mut v, 7, 9);
        assert!(v.x == 7 || v.x == -7);
        assert!(v.y == 9 || v.y == -9);
    }
}

#[test]
fn ball_moves_by_velocity_times_dt() {
    let mut ball = ball_at(100 * UNIT, 300 * UNIT, 400, -400);
    ball.update(10, HEIGHT);
    assert_eq!(ball.position, Vec2::new(104 * UNIT, 296 * UNIT));
    assert_eq!(ball.velocity, Vec2::new(400, -400));
}

#[test]
fn ball_bounces_off_ceiling_with_same_speed() {
    let mut ball = ball_at(100 * UNIT, 20 * UNIT, -400, -400);
    ball.update(100, HEIGHT);
    assert_eq!(ball.position, Vec2::new(60 * UNIT, BALL_SIZE_HALF));
    assert_eq!(ball.velocity, Vec2::new(-400, 400));
    assert_eq!(ball.velocity.x.abs(), 400);
    assert_eq!(ball.velocity.y.abs(), 400);
}

#[test]
fn ball_bounces_off_floor_with_same_speed() {
    let mut ball = ball_at(100 * UNIT, 580 * UNIT, 400, 400);
    ball.update(100, HEIGHT);
    assert_eq!(ball.position, Vec2::new(140 * UNIT, HEIGHT - BALL_SIZE_HALF));
    assert_eq!(ball.velocity, Vec2::new(400, -400));
}

#[test]
fn ball_update_with_zero_dt_changes_nothing() {
    let mut ball = ball_at(790 * UNIT, 300 * UNIT, 400, 400);
    ball.update(0, HEIGHT);
    assert_eq!(ball.position, Vec2::new(790 * UNIT, 300 * UNIT));
    assert_eq!(ball.velocity, Vec2::new(400, 400));
}

#[test]
fn ball_reset_centres_and_serves_diagonally() {
    for _ in 0..20 {
        let mut ball = ball_at(-5, 7, 1, 1);
        ball.reset(WIDTH, HEIGHT);
        assert_eq!(ball.position, Vec2::new(400 * UNIT, 300 * UNIT));
        assert_eq!(ball.velocity.x.abs(), BALL_SPEED);
        assert_eq!(ball.velocity.y.abs(), BALL_SPEED);
    }
}

#[test]
fn touching_edges_collide_in_either_order() {
    // ball spans x in [775, 805] units; a paddle 20 wide centred at 765
    // spans [755, 775]: the two share the edge x = 775.
    let ball = ball_at(790 * UNIT, 300 * UNIT, 400, 0);
    let paddle = Paddle::new(Vec2::new(765 * UNIT, 300 * UNIT), (20 * UNIT as u32, 100 * UNIT as u32), 0);
    assert!(check_collision(&paddle, &ball));
    assert!(check_collision(&ball, &paddle));
}

#[test]
fn separated_rectangles_do_not_collide() {
    let ball = ball_at(790 * UNIT, 300 * UNIT, 400, 0);
    let paddle = Paddle::new(Vec2::new(750 * UNIT, 300 * UNIT), (20 * UNIT as u32, 100 * UNIT as u32), 0);
    assert!(!check_collision(&paddle, &ball));
    assert!(!check_collision(&ball, &paddle));
}

#[test]
fn paddle_moves_and_is_clamped() {
    let mut paddle = Paddle::new(Vec2::new(50 * UNIT, 300 * UNIT), (20 * UNIT as u32, 100 * UNIT as u32), 600);
    paddle.move_direction(Direction::Up, 100, HEIGHT);
    assert_eq!(paddle.get_position(), Vec2::new(50 * UNIT, 240 * UNIT));
    paddle.move_direction(Direction::Up, 1000, HEIGHT);
    assert_eq!(paddle.get_position().y, 50 * UNIT);
    paddle.move_direction(Direction::Down, 10000, HEIGHT);
    assert_eq!(paddle.get_position().y, 550 * UNIT);
    paddle.move_held(true, true, 500, HEIGHT);
    assert_eq!(paddle.get_position().y, 550 * UNIT);
    paddle.set_position(Vec2::new(1, 2));
    assert_eq!(paddle.get_position(), Vec2::new(1, 2));
}

#[test]
fn paddle_stays_on_screen_for_any_keys() {
    let mut player = Player::new(
        Controls::new(KeyCode::W, KeyCode::S),
        Vec2::new(50 * UNIT, HEIGHT / 2),
        String::from("Player 1"),
    );
    let half = i64::from(PADDLE_HEIGHT / 2);
    for frame in 0u32..200 {
        let up = frame % 3 != 0;
        let down = frame % 5 == 0;
        player.update(frame * 7, up, down, HEIGHT);
        let y = player.paddle.get_position().y;
        assert!(half <= y && y <= HEIGHT - half);
    }
}

#[test]
fn player_with_both_keys_held_stays() {
    let mut player = Player::new(
        Controls::new(KeyCode::W, KeyCode::S),
        Vec2::new(50 * UNIT, 300 * UNIT),
        String::from("Player 1"),
    );
    player.update(16, true, true, HEIGHT);
    assert_eq!(player.paddle.get_position().y, 300 * UNIT);
    // at the top edge the two moves cancel before the paddle is clamped
    player.paddle.set_position(Vec2::new(50 * UNIT, 50 * UNIT));
    player.update(10, true, true, HEIGHT);
    assert_eq!(player.paddle.get_position().y, 50 * UNIT);
}

#[test]
fn paddle_off_screen_is_clamped_without_keys() {
    let mut player = Player::new(
        Controls::new(KeyCode::W, KeyCode::S),
        Vec2::new(50 * UNIT, 300 * UNIT),
        String::from("Player 1"),
    );
    player.paddle.set_position(Vec2::new(50 * UNIT, -UNIT));
    player.update(16, false, false, HEIGHT);
    assert_eq!(player.paddle.get_position(), Vec2::new(50 * UNIT, 50 * UNIT));
    player.paddle.set_position(Vec2::new(50 * UNIT, 900 * UNIT));
    player.update(0, false, false, HEIGHT);
    assert_eq!(player.paddle.get_position().y, 550 * UNIT);
}

#[test]
fn serve_uses_the_given_signs() {
    let mut ball = ball_at(-5, 7, 1, 1);
    ball.serve(WIDTH, HEIGHT, true, false);
    assert_eq!(ball.position, Vec2::new(400 * UNIT, 300 * UNIT));
    assert_eq!(ball.velocity, Vec2::new(BALL_SPEED, -BALL_SPEED));
    ball.serve(WIDTH, HEIGHT, false, true);
    assert_eq!(ball.velocity, Vec2::new(-BALL_SPEED, BALL_SPEED));
}

#[test]
fn player_score_and_name() {
    let mut player = Player::new(
        Controls::new(KeyCode::Up, KeyCode::Down),
        Vec2::new(0, 0),
        String::from("Player 2"),
    );
    assert_eq!(player.get_score(), 0);
    player.increment_score();
    player.increment_score();
    assert_eq!(player.get_score(), 2);
    assert_eq!(player.get_name(), "Player 2");
    assert_eq!(player.get_controls(), Controls::new(KeyCode::Up, KeyCode::Down));
}

#[test]
fn held_keys_are_found() {
    let held = vec![KeyCode::W, KeyCode::Down];
    assert!(is_held(&held, KeyCode::W));
    assert!(is_held(&held, KeyCode::Down));
    assert!(!is_held(&held, KeyCode::S));
    assert!(!is_held(&Vec::new(), KeyCode::W));
}

#[test]
fn new_world_places_players_and_ball() {
    let world = World::new(WIDTH, HEIGHT, 5);
    assert_eq!(world.player_1.paddle.get_position(), Vec2::new(10 * UNIT + PADDING, 300 * UNIT));
    assert_eq!(world.player_2.paddle.get_position(), Vec2::new(750 * UNIT, 300 * UNIT));
    assert_eq!(world.player_1.get_name(), "Player 1");
    assert_eq!(world.player_2.get_name(), "Player 2");
    assert_eq!(world.player_1.get_score(), 0);
    assert_eq!(world.ball.position, Vec2::new(400 * UNIT, 300 * UNIT));
    assert_eq!(world.ball.velocity.x.abs(), BALL_SPEED);
    assert_eq!(world.get_dt(), 0);
    assert_eq!(world.max_score, 5);
}

#[test]
fn delta_time_is_stored() {
    let mut world = World::new(WIDTH, HEIGHT, 5);
    world.update_delta_time(16);
    assert_eq!(world.get_dt(), 16);
}

#[test]
fn tick_moves_paddles_by_held_keys() {
    let mut world = World::new(WIDTH, HEIGHT, 5);
    world.ball.velocity = Vec2::new(400, 400);
    world.update_delta_time(16);
    world.tick(&vec![KeyCode::W, KeyCode::Down], HEIGHT);
    assert_eq!(world.player_1.paddle.get_position().y, 300 * UNIT - PADDLE_SPEED * 16);
    assert_eq!(world.player_2.paddle.get_position().y, 300 * UNIT + PADDLE_SPEED * 16);
    assert_eq!(world.ball.position, Vec2::new(400 * UNIT + 6400, 300 * UNIT + 6400));
}

#[test]
fn left_paddle_sends_ball_right() {
    let mut world = World::new(WIDTH, HEIGHT, 5);
    world.ball = ball_at(60 * UNIT, 300 * UNIT, -400, 400);
    world.tick(&Vec::new(), HEIGHT);
    assert_eq!(world.ball.velocity, Vec2::new(400, 400));
    assert_eq!(world.ball.position, Vec2::new(60 * UNIT, 300 * UNIT));
}

#[test]
fn right_paddle_turns_ball_moving_right() {
    let mut world = World::new(WIDTH, HEIGHT, 5);
    world.ball = ball_at(790 * UNIT, 300 * UNIT, 400, 400);
    // the standard right paddle spans [740, 760]: move it to touch the ball
    world.player_2.paddle.set_position(Vec2::new(775 * UNIT, 300 * UNIT));
    world.tick(&Vec::new(), HEIGHT);
    assert!(world.ball.velocity.x < 0);
    assert_eq!(world.ball.velocity, Vec2::new(-400, 400));
    assert_eq!(world.ball.position, Vec2::new(790 * UNIT, 300 * UNIT));
}

#[test]
fn ball_out_on_left_scores_for_player_2() {
    let mut world = World::new(WIDTH, HEIGHT, 5);
    world.ball = ball_at(-UNIT, 300 * UNIT, -400, 400);
    let winner = world.check_score(WIDTH, HEIGHT);
    assert_eq!(winner, None);
    assert_eq!(world.player_2.get_score(), 1);
    assert_eq!(world.player_1.get_score(), 0);
    assert_eq!(world.ball.position, Vec2::new(400 * UNIT, 300 * UNIT));
    assert_eq!(world.ball.velocity.x.abs(), BALL_SPEED);
    assert_eq!(world.ball.velocity.y.abs(), BALL_SPEED);
}

#[test]
fn ball_out_on_right_scores_for_player_1_only() {
    let mut world = World::new(WIDTH, HEIGHT, 5);
    world.ball = ball_at(WIDTH + 1, 300 * UNIT, 400, 400);
    world.check_score(WIDTH, HEIGHT);
    assert_eq!(world.player_1.get_score(), 1);
    assert_eq!(world.player_2.get_score(), 0);
}

#[test]
fn ball_on_screen_scores_nothing() {
    let mut world = World::new(WIDTH, HEIGHT, 5);
    world.ball = ball_at(WIDTH, 0, 400, 400);
    assert_eq!(world.check_score(WIDTH, HEIGHT), None);
    assert_eq!(world.player_1.get_score(), 0);
    assert_eq!(world.player_2.get_score(), 0);
    assert_eq!(world.ball.position, Vec2::new(WIDTH, 0));
    assert_eq!(world.ball.velocity, Vec2::new(400, 400));
}

#[test]
fn reaching_max_score_names_the_winner() {
    let mut world = World::new(WIDTH, HEIGHT, 5);
    for _ in 0..4 {
        world.player_1.increment_score();
    }
    world.ball = ball_at(WIDTH + UNIT, 300 * UNIT, 400, 400);
    assert_eq!(world.check_score(WIDTH, HEIGHT), Some(String::from("Player 1")));
    assert_eq!(world.player_1.get_score(), 5);
}

#[test]
fn player_2_wins_at_max_score() {
    let mut world = World::new(WIDTH, HEIGHT, 1);
    world.ball = ball_at(-UNIT, 300 * UNIT, -400, 400);
    assert_eq!(world.check_score(WIDTH, HEIGHT), Some(String::from("Player 2")));
}

#[test]
fn reset_restores_players() {
    let mut world = World::new(WIDTH, HEIGHT, 5);
    world.player_1.increment_score();
    world.player_2.paddle.set_position(Vec2::new(1, 1));
    let ball_position = world.ball.position;
    world.reset(WIDTH, HEIGHT);
    assert_eq!(world.player_1.get_score(), 0);
    assert_eq!(world.player_2.paddle.get_position(), Vec2::new(750 * UNIT, 300 * UNIT));
    assert_eq!(world.ball.position, ball_position);
}
