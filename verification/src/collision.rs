//! The overlap test between two axis-aligned boxes, and the side that was hit.
//!
//! A box is given by a [`Transform`]: its centre and its width and height.
//! Its edges lie half a size from the centre, and are compared at twice
//! their value, which is a whole number whatever the size.

use vstd::prelude::*;
use crate::geometry::Transform;

verus! {

/// The side of the second box that the first box has hit.
#[derive(Clone, Copy, Debug, PartialEq, Eq, Structural)]
pub enum Collision {
    /// The first box lies across the second one's left edge.
    Left,
    /// The first box lies across the second one's right edge.
    Right,
    /// The first box lies across the second one's upper edge.
    Top,
    /// The first box lies across the second one's lower edge.
    Bottom,
    /// The boxes overlap, and no side is singled out.
    Inside,
}

/// The two boxes share more than an edge: on both axes each begins before
/// the other ends.
pub open spec fn overlaps(a: Transform, b: Transform) -> bool {
    &&& a.left2() < b.right2()
    &&& a.right2() > b.left2()
    &&& a.bottom2() < b.top2()
    &&& a.top2() > b.bottom2()
}

/// On one axis, the extent `a` lies across the low end of the extent `b` and
/// no further: it begins before `b` does and ends inside `b`.
pub open spec fn across_low(a_low: int, a_high: int, b_low: int, b_high: int) -> bool {
    a_low < b_low && a_high > b_low && a_high < b_high
}

/// On one axis, the extent `a` lies across the high end of the extent `b` and
/// no further: it begins inside `b` and ends after `b` does.
pub open spec fn across_high(a_low: int, a_high: int, b_low: int, b_high: int) -> bool {
    a_low > b_low && a_low < b_high && a_high > b_high
}

/// How far, on one axis, the extent `a` reaches into the extent `b` past the
/// one end of `b` that it lies across, at twice its value; `None` where `a`
/// lies across neither end alone.
pub open spec fn depth2(a_low: int, a_high: int, b_low: int, b_high: int) -> Option<int> {
    if across_low(a_low, a_high, b_low, b_high) {
        Some(a_high - b_low)
    } else if across_high(a_low, a_high, b_low, b_high) {
        Some(b_high - a_low)
    } else {
        None
    }
}

/// The side that `a` hits on the horizontal axis: `b`'s left or right side.
/// Meaningful where `a` lies across one of them.
pub open spec fn horizontal_side(a: Transform, b: Transform) -> Collision {
    if across_low(a.left2(), a.right2(), b.left2(), b.right2()) {
        Collision::Left
    } else {
        Collision::Right
    }
}

/// The side that `a` hits on the vertical axis: `b`'s bottom or top side.
/// Meaningful where `a` lies across one of them.
pub open spec fn vertical_side(a: Transform, b: Transform) -> Collision {
    if across_low(a.bottom2(), a.top2(), b.bottom2(), b.top2()) {
        Collision::Bottom
    } else {
        Collision::Top
    }
}

/// The outcome of testing box `a` against box `b`.
///
/// `None` where they do not overlap. Where they do, each axis offers a side
/// if `a` lies across exactly that end of `b`, with the depth by which it
/// reaches in. The side with the smaller depth is the one that was hit; with
/// a side on one axis only, it is that side. With no side on either axis, or
/// with two sides of equal depth, the outcome is [`Collision::Inside`].
pub open spec fn collide_spec(a: Transform, b: Transform) -> Option<Collision> {
    if !overlaps(a, b) {
        None
    } else {
        let x_depth = depth2(a.left2(), a.right2(), b.left2(), b.right2());
        let y_depth = depth2(a.bottom2(), a.top2(), b.bottom2(), b.top2());
        Some(
            match (x_depth, y_depth) {
                (None, None) => Collision::Inside,
                (Some(_), None) => horizontal_side(a, b),
                (None, Some(_)) => vertical_side(a, b),
                (Some(dx), Some(dy)) => if dy < dx {
                    vertical_side(a, b)
                } else if dx < dy {
                    horizontal_side(a, b)
                } else {
                    Collision::Inside
                },
            },
        )
    }
}

/// The side that was hit is an edge of `b` that `a` lies across, and there
/// is a hit exactly where the boxes overlap.
pub proof fn hit_side_is_lain_across(a: Transform, b: Transform)
    ensures
        collide_spec(a, b) is Some <==> overlaps(a, b),
        collide_spec(a, b) == Some(Collision::Left) ==> across_low(
            a.left2(),
            a.right2(),
            b.left2(),
            b.right2(),
        ),
        collide_spec(a, b) == Some(Collision::Right) ==> across_high(
            a.left2(),
            a.right2(),
            b.left2(),
            b.right2(),
        ),
        collide_spec(a, b) == Some(Collision::Bottom) ==> across_low(
            a.bottom2(),
            a.top2(),
            b.bottom2(),
            b.top2(),
        ),
        collide_spec(a, b) == Some(Collision::Top) ==> across_high(
            a.bottom2(),
            a.top2(),
            b.bottom2(),
            b.top2(),
        ),
{
}

/// On one axis, the side of `b` that `a` lies across, out of the two that the
/// axis has, with the doubled depth by which `a` reaches in. The ends are
/// doubled edges of boxes, which leaves room for their differences.
fn side_on_axis(
    a_low: i128,
    a_high: i128,
    b_low: i128,
    b_high: i128,
    low: Collision,
    high: Collision,
) -> (found: Option<(Collision, i128)>)
    requires
        -0x4_0000_0000_0000_0000 < a_low < 0x4_0000_0000_0000_0000,
        -0x4_0000_0000_0000_0000 < a_high < 0x4_0000_0000_0000_0000,
        -0x4_0000_0000_0000_0000 < b_low < 0x4_0000_0000_0000_0000,
        -0x4_0000_0000_0000_0000 < b_high < 0x4_0000_0000_0000_0000,
    ensures
        match found {
            Some((side, depth)) => {
                &&& depth2(a_low as int, a_high as int, b_low as int, b_high as int)
                    == Some(depth as int)
                &&& across_low(a_low as int, a_high as int, b_low as int, b_high as int)
                    ==> side == low
                &&& !across_low(a_low as int, a_high as int, b_low as int, b_high as int)
                    ==> side == high
            },
            None => depth2(a_low as int, a_high as int, b_low as int, b_high as int) is None,
        },
{
    if a_low < b_low && a_high > b_low && a_high < b_high {
        Some((low, a_high - b_low))
    } else if a_low > b_low && a_low < b_high && a_high > b_high {
        Some((high, b_high - a_low))
    } else {
        None
    }
}

/// Tests box `a` against box `b`: whether they overlap and, if so, which side
/// of `b` was hit.
pub fn collide(a: &Transform, b: &Transform) -> (hit: Option<Collision>)
    ensures
        hit == collide_spec(*a, *b),
        hit is Some <==> overlaps(*a, *b),
{
    let a_left: i128 = 2 * (a.translation.x as i128) - (a.scale.x as i128);
    let a_right: i128 = 2 * (a.translation.x as i128) + (a.scale.x as i128);
    let a_bottom: i128 = 2 * (a.translation.y as i128) - (a.scale.y as i128);
    let a_top: i128 = 2 * (a.translation.y as i128) + (a.scale.y as i128);
    let b_left: i128 = 2 * (b.translation.x as i128) - (b.scale.x as i128);
    let b_right: i128 = 2 * (b.translation.x as i128) + (b.scale.x as i128);
    let b_bottom: i128 = 2 * (b.translation.y as i128) - (b.scale.y as i128);
    let b_top: i128 = 2 * (b.translation.y as i128) + (b.scale.y as i128);

    if a_left < b_right && a_right > b_left && a_bottom < b_top && a_top > b_bottom {
        let on_x =
            side_on_axis(a_left, a_right, b_left, b_right, Collision::Left, Collision::Right);
        let on_y =
            side_on_axis(a_bottom, a_top, b_bottom, b_top, Collision::Bottom, Collision::Top);
        Some(
            match (on_x, on_y) {
                (None, None) => Collision::Inside,
                (Some((x_side, _)), None) => x_side,
                (None, Some((y_side, _))) => y_side,
                (Some((x_side, x_depth)), Some((y_side, y_depth))) => if y_depth < x_depth {
                    y_side
                } else if x_depth < y_depth {
                    x_side
                } else {
                    Collision::Inside
                },
            },
        )
    } else {
        None
    }
}

} // verus!
