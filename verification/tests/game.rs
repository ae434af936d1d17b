use pong::ball::{Ball, Velocity};
use pong::game::Game;
use pong::geometry::{
    Transform, Vec2, WallLocation, BALL_REACH_X, BALL_REACH_Y, BALL_SIZE, BOTTOM_BOUND,
    PADDLE_HEIGHT, PADDLE_LEFT, PADDLE_RIGHT, PADDLE_WIDTH, STEP, TOP_BOUND,
};
use pong::paddle::{left_paddle, right_paddle, Input};

fn state(ball: (i64, i64, i64, i64), left_y: i64, right_y: i64) -> Game {
    Game {
        ball: Ball {
            transform: Transform {
                translation: Vec2::new(ball.0, ball.1),
                scale: Vec2::new(BALL_SIZE, BALL_SIZE),
            },
            velocity: Velocity { x: ball.2, y: ball.3 },
        },
        left_paddle: Transform {
            translation: Vec2::new(PADDLE_LEFT, left_y),
            scale: Vec2::new(PADDLE_WIDTH, PADDLE_HEIGHT),
        },
        right_paddle: Transform {
            translation: Vec2::new(PADDLE_RIGHT, right_y),
            scale: Vec2::new(PADDLE_WIDTH, PADDLE_HEIGHT),
        },
    }
}

fn keys(w: bool, s: bool, up: bool, down: bool) -> Input {
    Input { w, s, up, down }
}

#[test]
fn play_begins_with_everything_in_the_middle() {
    let game = Game::new();
    assert_eq!(game.ball, Ball::new());
    assert_eq!(game.left_paddle, left_paddle());
    assert_eq!(game.right_paddle, right_paddle());
    assert_eq!(game, state((0, 0, 1, 1), 0, 0));
    assert!(game.is_wf());
}

#[test]
fn colliders_are_paddles_first_then_walls() {
    let game = state((0, 0, 1, 1), 30, -40);
    let colliders = game.colliders();
    assert_eq!(
        colliders,
        vec![
            game.left_paddle,
            game.right_paddle,
            WallLocation::Left.transform(),
            WallLocation::Right.transform(),
            WallLocation::Top.transform(),
            WallLocation::Bottom.transform(),
        ]
    );
}

#[test]
fn validity_asks_for_paddles_in_place() {
    assert!(state((0, 0, 1, 1), TOP_BOUND, BOTTOM_BOUND).is_wf());
    assert!(!state((0, 0, 1, 1), TOP_BOUND + 1, 0).is_wf());
    assert!(!state((0, 0, 1, 1), 0, BOTTOM_BOUND - 1).is_wf());
    let mut game = Game::new();
    game.left_paddle.translation.x = PADDLE_LEFT + 1;
    assert!(!game.is_wf());
    let mut game = Game::new();
    game.right_paddle.translation.x = PADDLE_LEFT;
    assert!(!game.is_wf());
    let mut game = Game::new();
    game.right_paddle.scale.y = PADDLE_HEIGHT + 1;
    assert!(!game.is_wf());
    let mut game = Game::new();
    game.left_paddle.scale.x = PADDLE_WIDTH - 1;
    assert!(!game.is_wf());
}

#[test]
fn validity_asks_for_a_unit_velocity_and_the_ball_size() {
    assert!(!state((0, 0, 2, 1), 0, 0).is_wf());
    assert!(!state((0, 0, 1, 0), 0, 0).is_wf());
    assert!(!state((0, 0, 0, -1), 0, 0).is_wf());
    assert!(state((0, 0, -1, -1), 0, 0).is_wf());
    let mut game = Game::new();
    game.ball.transform.scale.x = BALL_SIZE + 1;
    assert!(!game.is_wf());
    let mut game = Game::new();
    game.ball.transform.scale.y = 0;
    assert!(!game.is_wf());
}

#[test]
fn validity_asks_for_a_ball_that_is_not_on_its_way_out() {
    assert!(state((BALL_REACH_X, 0, 1, 1), 0, 0).is_wf());
    assert!(!state((BALL_REACH_X + 1, 0, 1, 1), 0, 0).is_wf());
    assert!(state((BALL_REACH_X + 1, 0, -1, 1), 0, 0).is_wf());
    assert!(state((BALL_REACH_X + STEP, 0, -1, 1), 0, 0).is_wf());
    assert!(!state((BALL_REACH_X + STEP + 1, 0, -1, 1), 0, 0).is_wf());
    assert!(!state((-BALL_REACH_X - 1, 0, -1, 1), 0, 0).is_wf());
    assert!(state((-BALL_REACH_X - 1, 0, 1, 1), 0, 0).is_wf());
    assert!(!state((-BALL_REACH_X - STEP - 1, 0, 1, 1), 0, 0).is_wf());
    assert!(!state((0, BALL_REACH_Y + 1, 1, 1), 0, 0).is_wf());
    assert!(state((0, BALL_REACH_Y + 1, 1, -1), 0, 0).is_wf());
    assert!(!state((0, BALL_REACH_Y + STEP + 1, 1, -1), 0, 0).is_wf());
    assert!(!state((0, -BALL_REACH_Y - 1, 1, -1), 0, 0).is_wf());
    assert!(state((0, -BALL_REACH_Y - 1, 1, 1), 0, 0).is_wf());
    assert!(!state((0, -BALL_REACH_Y - STEP - 1, 1, 1), 0, 0).is_wf());
}

#[test]
fn one_tick_moves_paddles_and_ball() {
    let mut game = Game::new();
    let events = game.tick(&keys(true, false, false, true));
    assert_eq!(events, 0);
    assert_eq!(game, state((10, 10, 1, 1), 10, -10));
    let events = game.tick(&keys(false, true, true, false));
    assert_eq!(events, 0);
    assert_eq!(game, state((20, 20, 1, 1), 0, 0));
}

#[test]
fn the_ball_flies_straight_until_it_meets_something() {
    let mut game = Game::new();
    for n in 1..=55_i64 {
        let events = game.tick(&Input::none());
        assert_eq!(events, 0);
        assert_eq!(game.ball.transform.translation, Vec2::new(n * STEP, n * STEP));
        assert_eq!(game.ball.velocity, Velocity { x: 1, y: 1 });
    }
    // The next tick brings it into the top wall.
    let events = game.tick(&Input::none());
    assert_eq!(events, 1);
    assert_eq!(game.ball.transform.translation, Vec2::new(560, 560));
    assert_eq!(game.ball.velocity, Velocity { x: 1, y: -1 });
}

#[test]
fn the_right_wall_sends_the_ball_back_to_the_left() {
    let mut game = state((1000, 0, 1, -1), 0, 0);
    let events = game.tick(&Input::none());
    assert_eq!(events, 1);
    assert_eq!(game.ball.transform.translation, Vec2::new(1010, -10));
    assert_eq!(game.ball.velocity, Velocity { x: -1, y: -1 });
    let mut x = 1010;
    for _ in 0..3 {
        let events = game.tick(&Input::none());
        x -= STEP;
        assert_eq!(events, 0);
        assert_eq!(game.ball.transform.translation.x, x);
        assert_eq!(game.ball.velocity.x, -1);
    }
}

#[test]
fn the_left_wall_sends_the_ball_back_to_the_right() {
    let mut game = state((-1000, 0, -1, 1), 0, 0);
    let events = game.tick(&Input::none());
    assert_eq!(events, 1);
    assert_eq!(game.ball.transform.translation, Vec2::new(-1010, 10));
    assert_eq!(game.ball.velocity, Velocity { x: 1, y: 1 });
    game.tick(&Input::none());
    assert_eq!(game.ball.transform.translation, Vec2::new(-1000, 20));
}

#[test]
fn the_bottom_wall_sends_the_ball_back_up() {
    let mut game = state((40, -550, 1, -1), 0, 0);
    let events = game.tick(&Input::none());
    assert_eq!(events, 1);
    assert_eq!(game.ball.transform.translation, Vec2::new(50, -560));
    assert_eq!(game.ball.velocity, Velocity { x: 1, y: 1 });
}

#[test]
fn a_paddle_sends_the_ball_back() {
    // Towards the right paddle's left side.
    let mut game = state((900, 0, 1, 1), 0, 0);
    assert_eq!(game.tick(&Input::none()), 0);
    let events = game.tick(&Input::none());
    assert_eq!(events, 1);
    assert_eq!(game.ball.transform.translation, Vec2::new(920, 20));
    assert_eq!(game.ball.velocity, Velocity { x: -1, y: 1 });
    // Towards the left paddle's right side.
    let mut game = state((-910, 0, -1, -1), 0, 0);
    let events = game.tick(&Input::none());
    assert_eq!(events, 1);
    assert_eq!(game.ball.transform.translation, Vec2::new(-920, -10));
    assert_eq!(game.ball.velocity, Velocity { x: 1, y: -1 });
}

#[test]
fn the_ball_passes_a_paddle_that_is_elsewhere() {
    let mut game = state((900, 300, 1, 1), -200, -200);
    for _ in 0..10 {
        let events = game.tick(&Input::none());
        assert_eq!(events, 0);
    }
    assert_eq!(game.ball.transform.translation, Vec2::new(1000, 400));
    assert_eq!(game.ball.velocity, Velocity { x: 1, y: 1 });
}

#[test]
fn the_paddle_is_tested_where_it_stands_after_moving() {
    // The paddle's upper edge is at 150; moved up once it reaches the ball.
    let mut game = state((945, 180, -1, -1), 0, 0);
    let mut still = game;
    assert_eq!(still.tick(&Input::none()), 0);
    let events = game.tick(&keys(false, false, true, false));
    assert_eq!(events, 1);
    assert_eq!(game.right_paddle.translation.y, 10);
    assert_eq!(game.ball.velocity, Velocity { x: -1, y: 1 });
}

#[test]
fn bottom_wall_and_right_paddle_in_one_tick_flip_both_axes() {
    let mut game = state((915, -550, 1, -1), 0, BOTTOM_BOUND);
    let events = game.tick(&Input::none());
    assert_eq!(events, 2);
    assert_eq!(game.ball.transform.translation, Vec2::new(925, -560));
    assert_eq!(game.ball.velocity, Velocity { x: -1, y: 1 });
}

#[test]
fn top_wall_and_right_paddle_in_one_tick_flip_both_axes_from_inside() {
    let mut game = state((915, 550, 1, 1), 0, TOP_BOUND);
    let events = game.tick(&Input::none());
    assert_eq!(events, 2);
    assert_eq!(game.ball.velocity, Velocity { x: -1, y: -1 });
}

#[test]
fn two_walls_in_a_corner_flip_both_axes() {
    let mut game = state((1000, 550, 1, 1), 0, 0);
    let events = game.tick(&Input::none());
    assert_eq!(events, 2);
    assert_eq!(game.ball.transform.translation, Vec2::new(1010, 560));
    assert_eq!(game.ball.velocity, Velocity { x: -1, y: -1 });
}

#[test]
fn a_wall_has_the_last_word_over_a_paddle() {
    // The ball rises into the top wall beside the upper end of the left
    // paddle. The paddle's top side would send it up again; the wall, which
    // is tested later, sends it down.
    let mut game = state((-950, 550, -1, 1), 410, 0);
    let events = game.tick(&Input::none());
    assert_eq!(events, 2);
    assert_eq!(game.ball.transform.translation, Vec2::new(-960, 560));
    assert_eq!(game.ball.velocity.y, -1);
    assert!(game.is_wf());
}

#[test]
fn a_tick_takes_a_ball_that_is_outside_the_arena() {
    // Above the top wall and falling: the wall's top side sends it up again.
    let mut game = state((0, 610, 1, -1), 0, 0);
    assert!(!game.is_wf());
    let events = game.tick(&Input::none());
    assert_eq!(events, 1);
    assert_eq!(game.ball.transform.translation, Vec2::new(10, 600));
    assert_eq!(game.ball.velocity, Velocity { x: 1, y: 1 });
    // Far away nothing is hit.
    let mut game = state((50_000, -70_000, -1, 1), 0, 0);
    let events = game.tick(&Input::none());
    assert_eq!(events, 0);
    assert_eq!(game.ball.transform.translation, Vec2::new(49_990, -69_990));
    assert_eq!(game.ball.velocity, Velocity { x: -1, y: 1 });
}

#[test]
fn play_stays_valid_under_any_keys() {
    let mut game = Game::new();
    let mut seed: u64 = 0x9e37_79b9_7f4a_7c15;
    let mut total_events = 0;
    for _ in 0..20_000 {
        seed = seed.wrapping_mul(6364136223846793005).wrapping_add(1442695040888963407);
        let bits = seed >> 32;
        let input = keys(bits & 1 != 0, bits & 6 == 6, bits & 8 != 0, bits & 48 == 48);
        let before = game;
        let events = game.tick(&input);
        total_events += events;
        assert!(events <= 6);
        assert!(game.is_wf());
        let ball = game.ball;
        assert_eq!(ball.velocity.x.abs(), 1);
        assert_eq!(ball.velocity.y.abs(), 1);
        assert_eq!(
            ball.transform.translation.x,
            before.ball.transform.translation.x + before.ball.velocity.x * STEP
        );
        assert_eq!(
            ball.transform.translation.y,
            before.ball.transform.translation.y + before.ball.velocity.y * STEP
        );
        assert!(ball.transform.translation.x.abs() <= BALL_REACH_X + STEP);
        assert!(ball.transform.translation.y.abs() <= BALL_REACH_Y + STEP);
        for paddle in [game.left_paddle, game.right_paddle] {
            assert!(BOTTOM_BOUND <= paddle.translation.y && paddle.translation.y <= TOP_BOUND);
        }
        if events == 0 {
            assert_eq!(ball.velocity, before.ball.velocity);
        }
    }
    assert!(total_events > 0);
}
