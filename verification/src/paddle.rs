//! The paddles: which keys are held down, and the movement they ask for.

use vstd::prelude::*;
use crate::geometry::{
    Transform, Vec2, BOTTOM_BOUND, PADDLE_HEIGHT, PADDLE_LEFT, PADDLE_RIGHT, PADDLE_WIDTH, STEP,
    TOP_BOUND,
};

verus! {

/// The keys that move a paddle: `W` and `S` the left one, `Up` and `Down`
/// the right one.
#[derive(Clone, Copy, Debug, PartialEq, Eq, Structural)]
pub enum KeyCode {
    W,
    S,
    Up,
    Down,
}

/// Which of the keys are held down at one tick.
#[derive(Clone, Copy, Debug, PartialEq, Eq, Structural)]
pub struct Input {
    pub w: bool,
    pub s: bool,
    pub up: bool,
    pub down: bool,
}

impl Input {
    /// No key is held down.
    pub open spec fn spec_none() -> Input {
        Input { w: false, s: false, up: false, down: false }
    }

    /// The input of a tick in which no key is held down.
    #[verifier::when_used_as_spec(spec_none)]
    pub fn none() -> (input: Input)
        ensures
            input == Input::spec_none(),
    {
        Input { w: false, s: false, up: false, down: false }
    }

    /// Whether the given key is held down.
    pub open spec fn spec_pressed(&self, key: KeyCode) -> bool {
        match key {
            KeyCode::W => self.w,
            KeyCode::S => self.s,
            KeyCode::Up => self.up,
            KeyCode::Down => self.down,
        }
    }

    /// Whether the given key is held down.
    #[verifier::when_used_as_spec(spec_pressed)]
    pub fn pressed(&self, key: KeyCode) -> (held: bool)
        ensures
            held == self.spec_pressed(key),
    {
        match key {
            KeyCode::W => self.w,
            KeyCode::S => self.s,
            KeyCode::Up => self.up,
            KeyCode::Down => self.down,
        }
    }
}

/// The direction that the held keys ask for: the `up` key counts `1`, the
/// `down` key counts `-1`, and the two add up, so that both together ask for
/// no movement.
pub open spec fn direction(input: Input, up: KeyCode, down: KeyCode) -> int {
    (if input.pressed(up) {
        1int
    } else {
        0int
    }) - (if input.pressed(down) {
        1int
    } else {
        0int
    })
}

/// The value nearest to `value` that is at least `low` and at most `high`.
pub open spec fn clamp(value: int, low: int, high: int) -> int {
    if value < low {
        low
    } else if value > high {
        high
    } else {
        value
    }
}

/// The vertical position of a paddle one tick after it stood at `y` and was
/// asked to move in direction `d`: one [`STEP`] further, but never outside
/// the range from [`BOTTOM_BOUND`] to [`TOP_BOUND`].
pub open spec fn paddle_target(y: int, d: int) -> int {
    clamp(y + d * STEP, BOTTOM_BOUND as int, TOP_BOUND as int)
}

/// The box of a paddle one tick after the keys `up` and `down` were applied
/// to it: the vertical position is the only thing that changes.
pub open spec fn moved_paddle(
    paddle: Transform,
    input: Input,
    up: KeyCode,
    down: KeyCode,
) -> Transform {
    Transform {
        translation: Vec2 {
            x: paddle.translation.x,
            y: paddle_target(paddle.translation.y as int, direction(input, up, down)) as i64,
        },
        scale: paddle.scale,
    }
}

/// The box of a paddle that stands at the given horizontal position, as play
/// begins: halfway between the top and bottom walls.
pub open spec fn paddle_at(x: i64) -> Transform {
    Transform {
        translation: Vec2 { x, y: 0 },
        scale: Vec2 { x: PADDLE_WIDTH, y: PADDLE_HEIGHT },
    }
}

/// The left paddle as play begins.
pub fn left_paddle() -> (paddle: Transform)
    ensures
        paddle == paddle_at(PADDLE_LEFT),
{
    Transform {
        translation: Vec2::new(PADDLE_LEFT, 0),
        scale: Vec2::new(PADDLE_WIDTH, PADDLE_HEIGHT),
    }
}

/// The right paddle as play begins.
pub fn right_paddle() -> (paddle: Transform)
    ensures
        paddle == paddle_at(PADDLE_RIGHT),
{
    Transform {
        translation: Vec2::new(PADDLE_RIGHT, 0),
        scale: Vec2::new(PADDLE_WIDTH, PADDLE_HEIGHT),
    }
}

/// Moves a paddle by one tick of the movement that the keys `up` and `down`
/// ask for. Only the vertical position changes, and it ends inside the
/// paddle's range wherever it began.
pub fn paddle_movement(
    keyboard_input: &Input,
    transform: &mut Transform,
    up: KeyCode,
    down: KeyCode,
)
    ensures
        *final(transform) == moved_paddle(*old(transform), *keyboard_input, up, down),
        final(transform).translation.y == paddle_target(
            old(transform).translation.y as int,
            direction(*keyboard_input, up, down),
        ),
        BOTTOM_BOUND <= final(transform).translation.y <= TOP_BOUND,
        final(transform).translation.x == old(transform).translation.x,
        final(transform).scale == old(transform).scale,
{
    let mut position: i128 = 0;
    if keyboard_input.pressed(up) {
        position = position + 1;
    }
    if keyboard_input.pressed(down) {
        position = position - 1;
    }
    let new_translation: i128 = transform.translation.y as i128 + position * STEP as i128;
    let clamped: i128 = if new_translation < BOTTOM_BOUND as i128 {
        BOTTOM_BOUND as i128
    } else if new_translation > TOP_BOUND as i128 {
        TOP_BOUND as i128
    } else {
        new_translation
    };
    transform.translation.y = clamped as i64;
}

/// Moves the left paddle by one tick: `W` is its up key, `S` its down key.
pub fn move_left_paddle(keyboard_input: &Input, transform: &mut Transform)
    ensures
        *final(transform) == moved_paddle(
            *old(transform),
            *keyboard_input,
            KeyCode::W,
            KeyCode::S,
        ),
        final(transform).translation.y == paddle_target(
            old(transform).translation.y as int,
            direction(*keyboard_input, KeyCode::W, KeyCode::S),
        ),
        BOTTOM_BOUND <= final(transform).translation.y <= TOP_BOUND,
        final(transform).translation.x == old(transform).translation.x,
        final(transform).scale == old(transform).scale,
{
    paddle_movement(keyboard_input, transform, KeyCode::W, KeyCode::S);
}

/// Moves the right paddle by one tick: `Up` is its up key, `Down` its down
/// key.
pub fn move_right_paddle(keyboard_input: &Input, transform: &mut Transform)
    ensures
        *final(transform) == moved_paddle(
            *old(transform),
            *keyboard_input,
            KeyCode::Up,
            KeyCode::Down,
        ),
        final(transform).translation.y == paddle_target(
            old(transform).translation.y as int,
            direction(*keyboard_input, KeyCode::Up, KeyCode::Down),
        ),
        BOTTOM_BOUND <= final(transform).translation.y <= TOP_BOUND,
        final(transform).translation.x == old(transform).translation.x,
        final(transform).scale == old(transform).scale,
{
    paddle_movement(keyboard_input, transform, KeyCode::Up, KeyCode::Down);
}

} // verus!
