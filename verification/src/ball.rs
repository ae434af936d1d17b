//! The ball: how it moves, and how it bounces off what it hits.

use vstd::prelude::*;
use crate::collision::{collide, collide_spec, overlaps, Collision};
use crate::geometry::{Transform, Vec2, BALL_SIZE, STEP};

verus! {

/// The direction in which the ball travels: on each axis `1` or `-1`. In one
/// tick the ball covers one [`STEP`] on each axis, in that direction.
#[derive(Clone, Copy, Debug, PartialEq, Eq, Structural)]
pub struct Velocity {
    pub x: i64,
    pub y: i64,
}

impl Velocity {
    /// Both components are `1` or `-1`.
    pub open spec fn is_unit(self) -> bool {
        (self.x == 1 || self.x == -1) && (self.y == 1 || self.y == -1)
    }

    /// The same velocity with the horizontal component negated.
    pub open spec fn flipped_x(self) -> Velocity {
        Velocity { x: (-self.x) as i64, y: self.y }
    }

    /// The same velocity with the vertical component negated.
    pub open spec fn flipped_y(self) -> Velocity {
        Velocity { x: self.x, y: (-self.y) as i64 }
    }

    /// The velocity after a hit on the given side of a collider. A component
    /// is negated where the ball was travelling into that side: rightwards
    /// into a left side, leftwards into a right side, downwards into a top
    /// side, upwards into a bottom side. Otherwise nothing changes.
    pub open spec fn reflected(self, hit: Collision) -> Velocity {
        match hit {
            Collision::Left => if self.x > 0 {
                self.flipped_x()
            } else {
                self
            },
            Collision::Right => if self.x < 0 {
                self.flipped_x()
            } else {
                self
            },
            Collision::Top => if self.y < 0 {
                self.flipped_y()
            } else {
                self
            },
            Collision::Bottom => if self.y > 0 {
                self.flipped_y()
            } else {
                self
            },
            Collision::Inside => self,
        }
    }

    /// Applies a hit on the given side of a collider to this velocity.
    pub fn reflect(&mut self, hit: Collision)
        requires
            old(self).is_unit(),
        ensures
            *final(self) == old(self).reflected(hit),
            final(self).is_unit(),
    {
        let mut reflect_x = false;
        let mut reflect_y = false;
        match hit {
            Collision::Left => reflect_x = self.x > 0,
            Collision::Right => reflect_x = self.x < 0,
            Collision::Top => reflect_y = self.y < 0,
            Collision::Bottom => reflect_y = self.y > 0,
            Collision::Inside => {},
        }
        if reflect_x {
            self.x = -self.x;
        }
        if reflect_y {
            self.y = -self.y;
        }
    }
}

/// The ball: its box and the direction it travels in.
#[derive(Clone, Copy, Debug, PartialEq, Eq, Structural)]
pub struct Ball {
    pub transform: Transform,
    pub velocity: Velocity,
}

impl Ball {
    /// The ball as play begins: at the centre of the arena, travelling up
    /// and to the right.
    pub open spec fn initial() -> Ball {
        Ball {
            transform: Transform {
                translation: Vec2 { x: 0, y: 0 },
                scale: Vec2 { x: BALL_SIZE, y: BALL_SIZE },
            },
            velocity: Velocity { x: 1, y: 1 },
        }
    }

    /// The ball as play begins.
    pub fn new() -> (ball: Ball)
        ensures
            ball == Ball::initial(),
    {
        Ball {
            transform: Transform {
                translation: Vec2::new(0, 0),
                scale: Vec2::new(BALL_SIZE, BALL_SIZE),
            },
            velocity: Velocity { x: 1, y: 1 },
        }
    }

    /// The horizontal position after one tick of free movement.
    pub open spec fn next_x(self) -> int {
        self.transform.translation.x + self.velocity.x * STEP
    }

    /// The vertical position after one tick of free movement.
    pub open spec fn next_y(self) -> int {
        self.transform.translation.y + self.velocity.y * STEP
    }

    /// The ball's next position can be held: both of its coordinates are
    /// numbers of the coordinates' type.
    pub open spec fn can_move(self) -> bool {
        &&& i64::MIN <= self.next_x() <= i64::MAX
        &&& i64::MIN <= self.next_y() <= i64::MAX
    }

    /// The ball after one tick of free movement: one [`STEP`] further along
    /// each axis in the direction of its velocity, nothing else changed.
    pub open spec fn moved(self) -> Ball {
        Ball {
            transform: Transform {
                translation: Vec2 { x: self.next_x() as i64, y: self.next_y() as i64 },
                scale: self.transform.scale,
            },
            velocity: self.velocity,
        }
    }
}

/// Advances the ball by one tick. The position is not held inside the
/// arena here: that is the work of [`check_for_collisions`].
pub fn move_ball(ball: &mut Ball)
    requires
        old(ball).can_move(),
    ensures
        *final(ball) == old(ball).moved(),
        final(ball).transform.translation.x == old(ball).transform.translation.x
            + old(ball).velocity.x * STEP,
        final(ball).transform.translation.y == old(ball).transform.translation.y
            + old(ball).velocity.y * STEP,
        final(ball).transform.scale == old(ball).transform.scale,
        final(ball).velocity == old(ball).velocity,
{
    let x: i128 = ball.transform.translation.x as i128;
    let y: i128 = ball.transform.translation.y as i128;
    let dx: i128 = ball.velocity.x as i128 * STEP as i128;
    let dy: i128 = ball.velocity.y as i128 * STEP as i128;
    ball.transform.translation.x = (x + dx) as i64;
    ball.transform.translation.y = (y + dy) as i64;
}

/// The velocity of a ball with the given box after it was tested against
/// one collider: reflected at the side that was hit if the two overlap,
/// unchanged if they do not.
pub open spec fn struck(velocity: Velocity, ball: Transform, collider: Transform) -> Velocity {
    match collide_spec(ball, collider) {
        Some(hit) => velocity.reflected(hit),
        None => velocity,
    }
}

/// The velocity of a ball with the given box after it was tested against
/// each collider in turn, first to last: every overlap reflects the velocity
/// that the colliders before it have left.
pub open spec fn resolved(
    velocity: Velocity,
    ball: Transform,
    colliders: Seq<Transform>,
) -> Velocity
    decreases colliders.len(),
{
    if colliders.len() == 0 {
        velocity
    } else {
        struck(resolved(velocity, ball, colliders.drop_last()), ball, colliders.last())
    }
}

/// The number of colliders that the ball's box overlaps.
pub open spec fn overlap_count(ball: Transform, colliders: Seq<Transform>) -> nat
    decreases colliders.len(),
{
    if colliders.len() == 0 {
        0
    } else {
        overlap_count(ball, colliders.drop_last()) + if overlaps(ball, colliders.last()) {
            1nat
        } else {
            0nat
        }
    }
}

/// A ball that overlaps none of the colliders keeps its velocity, whatever
/// it is, and raises no collision event.
pub proof fn no_overlap_no_reflection(
    velocity: Velocity,
    ball: Transform,
    colliders: Seq<Transform>,
)
    requires
        forall|i: int| 0 <= i < colliders.len() ==> !overlaps(ball, #[trigger] colliders[i]),
    ensures
        resolved(velocity, ball, colliders) == velocity,
        overlap_count(ball, colliders) == 0,
    decreases colliders.len(),
{
    if colliders.len() > 0 {
        no_overlap_no_reflection(velocity, ball, colliders.drop_last());
        assert(!overlaps(ball, colliders[colliders.len() - 1]));
    }
}

/// The number of overlaps is at most the number of colliders, and it is zero
/// exactly where the ball overlaps none of them.
pub proof fn overlap_count_bounds(ball: Transform, colliders: Seq<Transform>)
    ensures
        overlap_count(ball, colliders) <= colliders.len(),
        overlap_count(ball, colliders) == 0 <==> (forall|i: int|
            0 <= i < colliders.len() ==> !overlaps(ball, #[trigger] colliders[i])),
    decreases colliders.len(),
{
    if colliders.len() > 0 {
        let front = colliders.drop_last();
        overlap_count_bounds(ball, front);
        if overlap_count(ball, colliders) == 0 {
            assert forall|i: int| 0 <= i < colliders.len() implies !overlaps(
                ball,
                #[trigger] colliders[i],
            ) by {
                if i < front.len() {
                    assert(front[i] == colliders[i]);
                }
            }
        } else if overlap_count(ball, front) > 0 {
            let i = choose|i: int| 0 <= i < front.len() && overlaps(ball, #[trigger] front[i]);
            assert(overlaps(ball, colliders[i]));
        } else {
            assert(overlaps(ball, colliders[colliders.len() - 1]));
        }
    }
}

/// Reflection only negates. A velocity whose components are `1` or `-1`
/// still has such components after any number of hits, and each component is
/// the one before or its negation.
pub proof fn resolved_stays_unit(velocity: Velocity, ball: Transform, colliders: Seq<Transform>)
    requires
        velocity.is_unit(),
    ensures
        resolved(velocity, ball, colliders).is_unit(),
        resolved(velocity, ball, colliders).x == velocity.x
            || resolved(velocity, ball, colliders).x == -velocity.x,
        resolved(velocity, ball, colliders).y == velocity.y
            || resolved(velocity, ball, colliders).y == -velocity.y,
    decreases colliders.len(),
{
    if colliders.len() > 0 {
        resolved_stays_unit(velocity, ball, colliders.drop_last());
    }
}

/// Tests the ball against each collider in turn and reflects its velocity
/// at every hit. The ball does not move. Returns the number of overlaps, one
/// collision event each, whether or not the velocity changed.
pub fn check_for_collisions(ball: &mut Ball, colliders: &Vec<Transform>) -> (events: usize)
    requires
        old(ball).velocity.is_unit(),
    ensures
        final(ball).transform == old(ball).transform,
        final(ball).velocity == resolved(old(ball).velocity, old(ball).transform, colliders@),
        final(ball).velocity.is_unit(),
        events == overlap_count(old(ball).transform, colliders@),
        events <= colliders.len(),
        (forall|i: int|
            0 <= i < colliders.len() ==> !overlaps(old(ball).transform, #[trigger] colliders[i]))
            ==> events == 0 && final(ball).velocity == old(ball).velocity,
{
    let mut events: usize = 0;
    let mut i: usize = 0;
    while i < colliders.len()
        invariant
            i <= colliders.len(),
            ball.transform == old(ball).transform,
            ball.velocity.is_unit(),
            ball.velocity == resolved(
                old(ball).velocity,
                old(ball).transform,
                colliders@.take(i as int),
            ),
            events == overlap_count(old(ball).transform, colliders@.take(i as int)),
            events <= i,
            (forall|j: int|
                0 <= j < i ==> !overlaps(old(ball).transform, #[trigger] colliders[j]))
                ==> events == 0 && ball.velocity == old(ball).velocity,
        decreases colliders.len() - i,
    {
        proof {
            assert(colliders@.take(i + 1).drop_last() == colliders@.take(i as int));
            assert(colliders@.take(i + 1).last() == colliders[i as int]);
        }
        let collision = collide(&ball.transform, &colliders[i]);
        if let Some(collision) = collision {
            events = events + 1;
            ball.velocity.reflect(collision);
        }
        i = i + 1;
    }
    proof {
        assert(colliders@.take(i as int) == colliders@);
    }
    events
}

} // verus!
