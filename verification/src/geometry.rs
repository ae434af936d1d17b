//! Vectors, transform records, and the fixed geometry of the arena.

use vstd::prelude::*;

verus! {

/// Number of parts into which a world unit is divided. Every length of this
/// crate is a whole number of such parts: of thirds of a world unit.
pub const SCALE: i64 = 3;

/// Ticks in one second of simulated time.
pub const TICK_RATE: i64 = 60;

/// Distance that the ball and the paddles cover in one second: 200 world
/// units.
pub const SPEED: i64 = 600;

/// Distance that the ball and the paddles cover in one tick: ten thirds of a
/// world unit.
pub const STEP: i64 = 10;

/// Width of the window: 750 world units.
pub const WINDOW_WIDTH: i64 = 2250;

/// Height of the window: 450 world units.
pub const WINDOW_HEIGHT: i64 = 1350;

/// Distance between the window's border and the centre line of a wall, and
/// between a side wall and the paddle in front of it: 30 world units.
pub const GAP: i64 = 90;

/// Thickness of every wall: 10 world units.
pub const WALL_THICKNESS: i64 = 30;

/// Horizontal position of the left wall's centre line.
pub const LEFT_WALL: i64 = -1035;

/// Horizontal position of the right wall's centre line.
pub const RIGHT_WALL: i64 = 1035;

/// Vertical position of the top wall's centre line.
pub const TOP_WALL: i64 = 585;

/// Vertical position of the bottom wall's centre line.
pub const BOTTOM_WALL: i64 = -585;

/// Width of a paddle: 10 world units.
pub const PADDLE_WIDTH: i64 = 30;

/// Height of a paddle: 100 world units.
pub const PADDLE_HEIGHT: i64 = 300;

/// Horizontal position of the left paddle's centre.
pub const PADDLE_LEFT: i64 = -945;

/// Horizontal position of the right paddle's centre.
pub const PADDLE_RIGHT: i64 = 945;

/// Highest position of a paddle's centre: the paddle then touches the top wall.
pub const TOP_BOUND: i64 = 420;

/// Lowest position of a paddle's centre: the paddle then touches the bottom wall.
pub const BOTTOM_BOUND: i64 = -420;

/// Width and height of the ball: 10 world units.
pub const BALL_SIZE: i64 = 30;

/// The horizontal position of the ball's centre at which the ball touches
/// the right wall. Further right it overlaps that wall; `-BALL_REACH_X` is the
/// same for the left wall.
pub const BALL_REACH_X: i64 = 1005;

/// The vertical position of the ball's centre at which the ball touches the
/// top wall. Further up it overlaps that wall; `-BALL_REACH_Y` is the same for
/// the bottom wall.
pub const BALL_REACH_Y: i64 = 555;

/// The constants above are written out in thirds of a world unit. This states how
/// they follow from the window, the gap, the sizes and the speed: the walls
/// stand one gap inside the window, the paddles one gap inside the side
/// walls, a paddle's centre stops where the paddle touches a wall, and the
/// distance covered in a tick is the speed divided by the tick rate, with no
/// remainder.
pub proof fn arena_constants_agree()
    ensures
        SPEED == 200 * SCALE,
        STEP * TICK_RATE == SPEED,
        WINDOW_WIDTH == 750 * SCALE,
        WINDOW_HEIGHT == 450 * SCALE,
        GAP == 30 * SCALE,
        WALL_THICKNESS == 10 * SCALE,
        PADDLE_WIDTH == 10 * SCALE,
        PADDLE_HEIGHT == 100 * SCALE,
        BALL_SIZE == 10 * SCALE,
        2 * RIGHT_WALL == WINDOW_WIDTH - 2 * GAP,
        2 * TOP_WALL == WINDOW_HEIGHT - 2 * GAP,
        LEFT_WALL == -RIGHT_WALL,
        BOTTOM_WALL == -TOP_WALL,
        PADDLE_LEFT == LEFT_WALL + GAP,
        PADDLE_RIGHT == RIGHT_WALL - GAP,
        2 * TOP_BOUND == 2 * TOP_WALL - WALL_THICKNESS - PADDLE_HEIGHT,
        2 * BOTTOM_BOUND == 2 * BOTTOM_WALL + WALL_THICKNESS + PADDLE_HEIGHT,
        2 * BALL_REACH_X == 2 * RIGHT_WALL - WALL_THICKNESS - BALL_SIZE,
        2 * BALL_REACH_Y == 2 * TOP_WALL - WALL_THICKNESS - BALL_SIZE,
{
}

/// A point or an extent of the plane, in thirds of a world unit.
#[derive(Clone, Copy, Debug, PartialEq, Eq, Structural)]
pub struct Vec2 {
    pub x: i64,
    pub y: i64,
}

impl Vec2 {
    /// The vector with the given coordinates.
    pub fn new(x: i64, y: i64) -> (v: Vec2)
        ensures
            v == (Vec2 { x, y }),
    {
        Vec2 { x, y }
    }
}

/// Where an entity is and how large it is: the centre of its box and the
/// box's width and height.
#[derive(Clone, Copy, Debug, PartialEq, Eq, Structural)]
pub struct Transform {
    pub translation: Vec2,
    pub scale: Vec2,
}

/// The edges of the box lie half a size from its centre. To stay in whole
/// numbers they are given at twice their value: the left edge of a box at
/// `x` with width `w` as `2 * x - w`.
impl Transform {
    /// Twice the position of the box's left edge.
    pub open spec fn left2(self) -> int {
        2 * self.translation.x - self.scale.x
    }

    /// Twice the position of the box's right edge.
    pub open spec fn right2(self) -> int {
        2 * self.translation.x + self.scale.x
    }

    /// Twice the position of the box's bottom edge.
    pub open spec fn bottom2(self) -> int {
        2 * self.translation.y - self.scale.y
    }

    /// Twice the position of the box's top edge.
    pub open spec fn top2(self) -> int {
        2 * self.translation.y + self.scale.y
    }
}

/// The four walls of the arena.
#[derive(Clone, Copy, Debug, PartialEq, Eq, Structural)]
pub enum WallLocation {
    Left,
    Right,
    Top,
    Bottom,
}

impl WallLocation {
    /// Centre of the wall: on the arena's edge, halfway along it.
    pub open spec fn spec_position(&self) -> Vec2 {
        match self {
            WallLocation::Left => Vec2 { x: LEFT_WALL, y: 0 },
            WallLocation::Right => Vec2 { x: RIGHT_WALL, y: 0 },
            WallLocation::Top => Vec2 { x: 0, y: TOP_WALL },
            WallLocation::Bottom => Vec2 { x: 0, y: BOTTOM_WALL },
        }
    }

    /// Width and height of the wall: as thick as every wall, and longer than
    /// the arena's side by one thickness, so that the walls meet at the corners.
    pub open spec fn spec_size(&self) -> Vec2 {
        match self {
            WallLocation::Left | WallLocation::Right => Vec2 {
                x: WALL_THICKNESS,
                y: (TOP_WALL - BOTTOM_WALL + WALL_THICKNESS) as i64,
            },
            WallLocation::Top | WallLocation::Bottom => Vec2 {
                x: (RIGHT_WALL - LEFT_WALL + WALL_THICKNESS) as i64,
                y: WALL_THICKNESS,
            },
        }
    }

    /// The wall's box: its centre and its size.
    pub open spec fn spec_transform(&self) -> Transform {
        Transform { translation: self.spec_position(), scale: self.spec_size() }
    }

    /// Centre of the wall.
    #[verifier::when_used_as_spec(spec_position)]
    pub fn position(&self) -> (p: Vec2)
        ensures
            p == self.spec_position(),
    {
        match self {
            WallLocation::Left => Vec2::new(LEFT_WALL, 0),
            WallLocation::Right => Vec2::new(RIGHT_WALL, 0),
            WallLocation::Top => Vec2::new(0, TOP_WALL),
            WallLocation::Bottom => Vec2::new(0, BOTTOM_WALL),
        }
    }

    /// Width and height of the wall.
    #[verifier::when_used_as_spec(spec_size)]
    pub fn size(&self) -> (s: Vec2)
        ensures
            s == self.spec_size(),
    {
        let arena_width: i64 = RIGHT_WALL - LEFT_WALL;
        let arena_height: i64 = TOP_WALL - BOTTOM_WALL;
        match self {
            WallLocation::Left | WallLocation::Right => Vec2::new(
                WALL_THICKNESS,
                arena_height + WALL_THICKNESS,
            ),
            WallLocation::Top | WallLocation::Bottom => Vec2::new(
                arena_width + WALL_THICKNESS,
                WALL_THICKNESS,
            ),
        }
    }

    /// The wall's box.
    #[verifier::when_used_as_spec(spec_transform)]
    pub fn transform(&self) -> (t: Transform)
        ensures
            t == self.spec_transform(),
    {
        Transform { translation: self.position(), scale: self.size() }
    }

    /// Which of the four walls this is.
    pub fn side(self) -> (s: WallLocation)
        ensures
            s == self,
    {
        self
    }
}

/// A wall of the arena: its box, and which of the four it is. Walls do not
/// change once they are made.
#[derive(Clone, Copy, Debug, PartialEq, Eq, Structural)]
pub struct Wall {
    pub transform: Transform,
    pub side: WallLocation,
}

impl Wall {
    /// The wall that stands at the given location.
    pub fn new(location: WallLocation) -> (wall: Wall)
        ensures
            wall.transform.translation == location.position(),
            wall.transform.scale == location.size(),
            wall.side == location,
    {
        Wall {
            transform: Transform { translation: location.position(), scale: location.size() },
            side: location.side(),
        }
    }
}

} // verus!
