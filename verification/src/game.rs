//! The whole game: the ball, the two paddles and the four walls, and one
//! tick of play.
//!
//! In a tick the paddles move first, then the ball, and then the ball is
//! tested against the six colliders. The order of that test is fixed: the
//! left paddle, the right paddle, then the left, right, top and bottom wall.
//! Several hits in one tick each reflect the velocity that the hits before
//! have left, so the order can matter where the ball overlaps a paddle and
//! a wall at once. With the walls last, a wall has the final word on the
//! ball's direction, and the ball never leaves the arena.

use vstd::prelude::*;
use crate::ball::{
    check_for_collisions, move_ball, no_overlap_no_reflection, overlap_count,
    overlap_count_bounds, resolved, struck, Ball, Velocity,
};
use crate::collision::overlaps;
use crate::geometry::{
    Transform, Vec2, WallLocation, BALL_REACH_X, BALL_REACH_Y, BALL_SIZE, BOTTOM_BOUND,
    PADDLE_HEIGHT, PADDLE_LEFT, PADDLE_RIGHT, PADDLE_WIDTH, STEP, TOP_BOUND,
};
use crate::paddle::{
    left_paddle, move_left_paddle, move_right_paddle, moved_paddle, paddle_at, right_paddle, Input,
    KeyCode,
};

verus! {

/// The state of play: everything that changes from tick to tick. The walls
/// are fixed and are not held here.
#[derive(Clone, Copy, Debug, PartialEq, Eq, Structural)]
pub struct Game {
    pub ball: Ball,
    pub left_paddle: Transform,
    pub right_paddle: Transform,
}

/// A paddle's box is as it should be for a paddle in the column `x`: in that
/// column, of a paddle's size, and with its centre inside the paddle's range.
pub open spec fn paddle_in_place(paddle: Transform, x: i64) -> bool {
    &&& paddle.translation.x == x
    &&& BOTTOM_BOUND <= paddle.translation.y <= TOP_BOUND
    &&& paddle.scale == Vec2 { x: PADDLE_WIDTH, y: PADDLE_HEIGHT }
}

/// The ball is inside the arena and is not on its way out. It may overlap a
/// wall by at most one [`STEP`], and where it overlaps one it travels away
/// from it.
pub open spec fn ball_in_arena(ball: Ball) -> bool {
    let x = ball.transform.translation.x;
    let y = ball.transform.translation.y;
    &&& ball.transform.scale == Vec2 { x: BALL_SIZE, y: BALL_SIZE }
    &&& ball.velocity.is_unit()
    &&& -BALL_REACH_X - STEP <= x <= BALL_REACH_X + STEP
    &&& -BALL_REACH_Y - STEP <= y <= BALL_REACH_Y + STEP
    &&& x > BALL_REACH_X ==> ball.velocity.x == -1
    &&& x < -BALL_REACH_X ==> ball.velocity.x == 1
    &&& y > BALL_REACH_Y ==> ball.velocity.y == -1
    &&& y < -BALL_REACH_Y ==> ball.velocity.y == 1
}

impl Game {
    /// The state is in order: both paddles in their column and range, the
    /// ball of its size with a unit velocity, inside the arena and not on
    /// its way out. Play begins in order, and a tick never ends it
    /// ([`lemma_tick_keeps_wf`]).
    pub open spec fn wf(self) -> bool {
        &&& paddle_in_place(self.left_paddle, PADDLE_LEFT)
        &&& paddle_in_place(self.right_paddle, PADDLE_RIGHT)
        &&& ball_in_arena(self.ball)
    }

    /// The state as play begins.
    pub open spec fn initial() -> Game {
        Game {
            ball: Ball::initial(),
            left_paddle: paddle_at(PADDLE_LEFT),
            right_paddle: paddle_at(PADDLE_RIGHT),
        }
    }

    /// The state as play begins. It is in order.
    pub fn new() -> (game: Game)
        ensures
            game == Game::initial(),
            game.wf(),
    {
        Game { ball: Ball::new(), left_paddle: left_paddle(), right_paddle: right_paddle() }
    }

    /// Whether the state is in order, as [`Game::wf`] has it.
    pub fn is_wf(&self) -> (ok: bool)
        ensures
            ok == self.wf(),
    {
        let x: i64 = self.ball.transform.translation.x;
        let y: i64 = self.ball.transform.translation.y;
        let vx: i64 = self.ball.velocity.x;
        let vy: i64 = self.ball.velocity.y;
        self.left_paddle.translation.x == PADDLE_LEFT
            && BOTTOM_BOUND <= self.left_paddle.translation.y
            && self.left_paddle.translation.y <= TOP_BOUND
            && self.left_paddle.scale.x == PADDLE_WIDTH
            && self.left_paddle.scale.y == PADDLE_HEIGHT
            && self.right_paddle.translation.x == PADDLE_RIGHT
            && BOTTOM_BOUND <= self.right_paddle.translation.y
            && self.right_paddle.translation.y <= TOP_BOUND
            && self.right_paddle.scale.x == PADDLE_WIDTH
            && self.right_paddle.scale.y == PADDLE_HEIGHT
            && self.ball.transform.scale.x == BALL_SIZE
            && self.ball.transform.scale.y == BALL_SIZE
            && (vx == 1 || vx == -1)
            && (vy == 1 || vy == -1)
            && -BALL_REACH_X - STEP <= x
            && x <= BALL_REACH_X + STEP
            && -BALL_REACH_Y - STEP <= y
            && y <= BALL_REACH_Y + STEP
            && (x <= BALL_REACH_X || vx == -1)
            && (x >= -BALL_REACH_X || vx == 1)
            && (y <= BALL_REACH_Y || vy == -1)
            && (y >= -BALL_REACH_Y || vy == 1)
    }

    /// The six colliders in the order in which the ball is tested against
    /// them: the paddles, left and right, then the walls, left, right, top
    /// and bottom.
    pub open spec fn collider_seq(self) -> Seq<Transform> {
        seq![
            self.left_paddle,
            self.right_paddle,
            WallLocation::Left.transform(),
            WallLocation::Right.transform(),
            WallLocation::Top.transform(),
            WallLocation::Bottom.transform(),
        ]
    }

    /// The six colliders, in the order of [`Game::collider_seq`].
    pub fn colliders(&self) -> (list: Vec<Transform>)
        ensures
            list@ == self.collider_seq(),
    {
        let mut list: Vec<Transform> = Vec::new();
        list.push(self.left_paddle);
        list.push(self.right_paddle);
        list.push(WallLocation::Left.transform());
        list.push(WallLocation::Right.transform());
        list.push(WallLocation::Top.transform());
        list.push(WallLocation::Bottom.transform());
        assert(list@ =~= self.collider_seq());
        list
    }

    /// The state after the paddles and the ball have moved by one tick, the
    /// ball not yet tested against anything.
    pub open spec fn after_movement(self, input: Input) -> Game {
        Game {
            ball: self.ball.moved(),
            left_paddle: moved_paddle(self.left_paddle, input, KeyCode::W, KeyCode::S),
            right_paddle: moved_paddle(self.right_paddle, input, KeyCode::Up, KeyCode::Down),
        }
    }

    /// The state with the ball's velocity reflected at whatever the ball
    /// overlaps. Nothing moves.
    pub open spec fn after_collisions(self) -> Game {
        Game {
            ball: Ball {
                transform: self.ball.transform,
                velocity: resolved(self.ball.velocity, self.ball.transform, self.collider_seq()),
            },
            left_paddle: self.left_paddle,
            right_paddle: self.right_paddle,
        }
    }

    /// The state one tick later, with the given keys held down.
    pub open spec fn after_tick(self, input: Input) -> Game {
        self.after_movement(input).after_collisions()
    }

    /// The number of collision events of the tick that leads to
    /// [`Game::after_tick`]: one for each collider that the ball overlaps
    /// once everything has moved.
    pub open spec fn tick_events(self, input: Input) -> nat {
        let moved = self.after_movement(input);
        overlap_count(moved.ball.transform, moved.collider_seq())
    }

    /// The state after one tick for each entry of `inputs`, first to last,
    /// with the keys of that entry held down.
    pub open spec fn after_ticks(self, inputs: Seq<Input>) -> Game
        decreases inputs.len(),
    {
        if inputs.len() == 0 {
            self
        } else {
            self.after_ticks(inputs.drop_last()).after_tick(inputs.last())
        }
    }

    /// The number of collision events of all the ticks that lead to
    /// [`Game::after_ticks`].
    pub open spec fn events_during(self, inputs: Seq<Input>) -> nat
        decreases inputs.len(),
    {
        if inputs.len() == 0 {
            0
        } else {
            self.events_during(inputs.drop_last()) + self.after_ticks(
                inputs.drop_last(),
            ).tick_events(inputs.last())
        }
    }

    /// Plays one tick with the given keys held down: moves the paddles, moves
    /// the ball, then reflects the ball at what it overlaps. Returns the
    /// number of collision events.
    ///
    /// The ball always ends one [`STEP`] from where it was on each axis, in
    /// the direction it had. Where it then overlaps nothing, its velocity is
    /// unchanged and there is no event. A state that was in order still is.
    ///
    /// The state need not be in order: it is enough that the velocity is a
    /// unit velocity and that the ball's next position can be held.
    pub fn tick(&mut self, input: &Input) -> (events: usize)
        requires
            old(self).ball.velocity.is_unit(),
            old(self).ball.can_move(),
        ensures
            *final(self) == old(self).after_tick(*input),
            events == old(self).tick_events(*input),
            events <= 6,
            old(self).wf() ==> final(self).wf(),
            final(self).ball.velocity.is_unit(),
            final(self).ball.transform.translation.x == old(self).ball.transform.translation.x
                + old(self).ball.velocity.x * STEP,
            final(self).ball.transform.translation.y == old(self).ball.transform.translation.y
                + old(self).ball.velocity.y * STEP,
            events == 0 ==> final(self).ball.velocity == old(self).ball.velocity,
    {
        move_left_paddle(input, &mut self.left_paddle);
        move_right_paddle(input, &mut self.right_paddle);
        move_ball(&mut self.ball);
        let colliders = self.colliders();
        let events = check_for_collisions(&mut self.ball, &colliders);
        proof {
            if old(self).wf() {
                lemma_tick_keeps_wf(*old(self), *input);
            }
            overlap_count_bounds(self.ball.transform, colliders@);
            if events == 0 {
                no_overlap_no_reflection(old(self).ball.velocity, self.ball.transform, colliders@);
            }
        }
        events
    }
}

/// Testing against one more collider reflects what the colliders before it
/// have left.
proof fn lemma_resolved_push(
    velocity: Velocity,
    ball: Transform,
    colliders: Seq<Transform>,
    last: Transform,
)
    ensures
        resolved(velocity, ball, colliders.push(last)) == struck(
            resolved(velocity, ball, colliders),
            ball,
            last,
        ),
{
    assert(colliders.push(last).drop_last() =~= colliders);
}

/// The outcome of testing against the six colliders of a game, written out
/// hit by hit.
proof fn lemma_resolved_six(velocity: Velocity, ball: Transform, game: Game)
    ensures
        resolved(velocity, ball, game.collider_seq()) == struck(
            struck(
                struck(
                    struck(
                        struck(struck(velocity, ball, game.left_paddle), ball, game.right_paddle),
                        ball,
                        WallLocation::Left.transform(),
                    ),
                    ball,
                    WallLocation::Right.transform(),
                ),
                ball,
                WallLocation::Top.transform(),
            ),
            ball,
            WallLocation::Bottom.transform(),
        ),
{
    let s0 = Seq::<Transform>::empty();
    let s1 = s0.push(game.left_paddle);
    let s2 = s1.push(game.right_paddle);
    let s3 = s2.push(WallLocation::Left.transform());
    let s4 = s3.push(WallLocation::Right.transform());
    let s5 = s4.push(WallLocation::Top.transform());
    let s6 = s5.push(WallLocation::Bottom.transform());
    assert(s6 =~= game.collider_seq());
    lemma_resolved_push(velocity, ball, s0, game.left_paddle);
    lemma_resolved_push(velocity, ball, s1, game.right_paddle);
    lemma_resolved_push(velocity, ball, s2, WallLocation::Left.transform());
    lemma_resolved_push(velocity, ball, s3, WallLocation::Right.transform());
    lemma_resolved_push(velocity, ball, s4, WallLocation::Top.transform());
    lemma_resolved_push(velocity, ball, s5, WallLocation::Bottom.transform());
}

/// A tick leads from a state that is in order to another one.
pub proof fn lemma_tick_keeps_wf(game: Game, input: Input)
    requires
        game.wf(),
    ensures
        game.after_tick(input).wf(),
{
    let moved = game.after_movement(input);
    lemma_resolved_six(moved.ball.velocity, moved.ball.transform, moved);
}

/// Any number of ticks, with any keys held down, lead from a state that is
/// in order to another one.
pub proof fn lemma_ticks_keep_wf(game: Game, inputs: Seq<Input>)
    requires
        game.wf(),
    ensures
        game.after_ticks(inputs).wf(),
    decreases inputs.len(),
{
    if inputs.len() > 0 {
        lemma_ticks_keep_wf(game, inputs.drop_last());
        lemma_tick_keeps_wf(game.after_ticks(inputs.drop_last()), inputs.last());
    }
}

/// Whatever keys are held down from tick to tick, both paddles stay in
/// their range, from [`BOTTOM_BOUND`] to [`TOP_BOUND`] inclusive, and in
/// their column.
pub proof fn paddles_stay_in_range(game: Game, inputs: Seq<Input>)
    requires
        game.wf(),
    ensures
        BOTTOM_BOUND <= game.after_ticks(inputs).left_paddle.translation.y <= TOP_BOUND,
        BOTTOM_BOUND <= game.after_ticks(inputs).right_paddle.translation.y <= TOP_BOUND,
        game.after_ticks(inputs).left_paddle.translation.x == PADDLE_LEFT,
        game.after_ticks(inputs).right_paddle.translation.x == PADDLE_RIGHT,
{
    lemma_ticks_keep_wf(game, inputs);
}

/// Whatever happens from tick to tick, each component of the ball's
/// velocity is `1` or `-1`: hits change its sign and never its size.
pub proof fn velocity_stays_unit(game: Game, inputs: Seq<Input>)
    requires
        game.wf(),
    ensures
        game.after_ticks(inputs).ball.velocity.is_unit(),
{
    lemma_ticks_keep_wf(game, inputs);
}

/// Whatever happens from tick to tick, the ball stays inside the arena: it
/// never overlaps a wall by more than one [`STEP`].
pub proof fn ball_stays_in_arena(game: Game, inputs: Seq<Input>)
    requires
        game.wf(),
    ensures
        -BALL_REACH_X - STEP <= game.after_ticks(inputs).ball.transform.translation.x
            <= BALL_REACH_X + STEP,
        -BALL_REACH_Y - STEP <= game.after_ticks(inputs).ball.transform.translation.y
            <= BALL_REACH_Y + STEP,
{
    lemma_ticks_keep_wf(game, inputs);
}

/// Once a tick is over, a ball that overlaps a wall travels away from it:
/// to the left at the right wall, to the right at the left wall, down at the
/// top wall and up at the bottom wall.
pub proof fn ball_turns_away_from_walls(game: Game, input: Input)
    requires
        game.wf(),
    ensures
        overlaps(game.after_tick(input).ball.transform, WallLocation::Right.transform())
            ==> game.after_tick(input).ball.velocity.x == -1,
        overlaps(game.after_tick(input).ball.transform, WallLocation::Left.transform())
            ==> game.after_tick(input).ball.velocity.x == 1,
        overlaps(game.after_tick(input).ball.transform, WallLocation::Top.transform())
            ==> game.after_tick(input).ball.velocity.y == -1,
        overlaps(game.after_tick(input).ball.transform, WallLocation::Bottom.transform())
            ==> game.after_tick(input).ball.velocity.y == 1,
{
    lemma_tick_keeps_wf(game, input);
}

/// A ball that travels to the right and, in some tick, comes to overlap the
/// right wall travels to the left once that tick is over. It does not jump:
/// the tick has moved it one [`STEP`] to the right, and the next tick,
/// whatever keys are held down, moves it one [`STEP`] back to the left. It
/// goes on to the left, one [`STEP`] per tick, for as long as the ticks that
/// follow raise no collision event.
pub proof fn bounce_off_right_wall(game: Game, input: Input, next_input: Input, later: Seq<Input>)
    requires
        game.wf(),
        game.ball.velocity.x == 1,
        overlaps(game.ball.moved().transform, WallLocation::Right.transform()),
    ensures
        game.after_tick(input).ball.velocity.x == -1,
        game.after_tick(input).ball.transform.translation.x == game.ball.transform.translation.x
            + STEP,
        game.after_tick(input).after_tick(next_input).ball.transform.translation.x
            == game.after_tick(input).ball.transform.translation.x - STEP,
        game.after_tick(input).events_during(later) == 0 ==> {
            &&& game.after_tick(input).after_ticks(later).ball.velocity.x == -1
            &&& game.after_tick(input).after_ticks(later).ball.transform.translation.x
                == game.after_tick(input).ball.transform.translation.x - later.len() * STEP
        },
{
    lemma_tick_keeps_wf(game, input);
    if game.after_tick(input).events_during(later) == 0 {
        free_flight(game.after_tick(input), later);
    }
}

/// A tick in which the ball, once moved, overlaps no collider only moves the
/// ball: its velocity is what it was, and there is no collision event.
pub proof fn tick_without_overlap(game: Game, input: Input)
    requires
        game.ball.can_move(),
        forall|i: int|
            0 <= i < 6 ==> !overlaps(
                game.ball.moved().transform,
                #[trigger] game.after_movement(input).collider_seq()[i],
            ),
    ensures
        game.tick_events(input) == 0,
        game.after_tick(input).ball.velocity == game.ball.velocity,
        game.after_tick(input).ball.transform.translation.x == game.ball.transform.translation.x
            + game.ball.velocity.x * STEP,
        game.after_tick(input).ball.transform.translation.y == game.ball.transform.translation.y
            + game.ball.velocity.y * STEP,
        game.after_tick(input).ball.transform.scale == game.ball.transform.scale,
{
    let moved = game.after_movement(input);
    no_overlap_no_reflection(moved.ball.velocity, moved.ball.transform, moved.collider_seq());
}

/// Over any number of ticks without a collision event the ball travels in a
/// straight line: its velocity is what it was at the start, and on each axis
/// it has covered one [`STEP`] per tick in that direction.
pub proof fn free_flight(game: Game, inputs: Seq<Input>)
    requires
        game.wf(),
        game.events_during(inputs) == 0,
    ensures
        game.after_ticks(inputs).ball.velocity == game.ball.velocity,
        game.after_ticks(inputs).ball.transform.translation.x == game.ball.transform.translation.x
            + inputs.len() * (game.ball.velocity.x * STEP),
        game.after_ticks(inputs).ball.transform.translation.y == game.ball.transform.translation.y
            + inputs.len() * (game.ball.velocity.y * STEP),
    decreases inputs.len(),
{
    if inputs.len() > 0 {
        let before = game.after_ticks(inputs.drop_last());
        free_flight(game, inputs.drop_last());
        lemma_ticks_keep_wf(game, inputs.drop_last());
        let moved = before.after_movement(inputs.last());
        overlap_count_bounds(moved.ball.transform, moved.collider_seq());
        tick_without_overlap(before, inputs.last());
        let n = inputs.len() as int;
        let dx = game.ball.velocity.x * STEP;
        let dy = game.ball.velocity.y * STEP;
        assert((n - 1) * dx + dx == n * dx) by (nonlinear_arith);
        assert((n - 1) * dy + dy == n * dy) by (nonlinear_arith);
    }
}

} // verus!
