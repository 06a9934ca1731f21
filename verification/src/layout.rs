//! Where things stand: walls, paddle and the strip in which balls appear.
//!
//! The origin is the centre of the viewport, `x` grows to the right and `y`
//! upwards. A viewport of odd size loses its outermost half unit.

use vstd::prelude::*;
use crate::components::Marker;
use crate::{
    BLUE_RECTANGLE_HEIGHT, BLUE_RECTANGLE_WIDTH, PADDLE_CLEARANCE, RED_BALL_RADIUS, SPAWN_PADDING,
    WALL_THICKNESS,
};

verus! {

/// Size of the window the game is drawn in.
#[derive(Clone, Copy, Debug, PartialEq, Eq, Structural)]
pub struct Viewport {
    pub width: u32,
    pub height: u32,
}

/// An axis-aligned rectangle, given by its edges.
#[derive(Clone, Copy, Debug, PartialEq, Eq, Structural)]
pub struct Rect {
    pub left: i32,
    pub bottom: i32,
    pub right: i32,
    pub top: i32,
}

impl Viewport {
    /// Distance from the centre to the left and right edges.
    pub open spec fn half_width(self) -> int {
        self.width as int / 2
    }

    /// Distance from the centre to the upper and lower edges.
    pub open spec fn half_height(self) -> int {
        self.height as int / 2
    }
}

/// Distance that the centre of a spawning ball keeps from the outer edge of
/// the viewport: the wall, the ball's own radius and the padding.
pub open spec fn spawn_margin() -> int {
    WALL_THICKNESS + RED_BALL_RADIUS + SPAWN_PADDING
}

/// The area a wall covers. Ceiling and floor span the whole width; the side
/// walls fill the height between them. Tags that are no wall cover nothing.
pub open spec fn wall_area(boundary: Marker, viewport: Viewport) -> Option<Rect> {
    let w = viewport.half_width();
    let h = viewport.half_height();
    let t = WALL_THICKNESS as int;
    match boundary {
        Marker::Ceil => Some(
            Rect { left: (-w) as i32, bottom: (h - t) as i32, right: w as i32, top: h as i32 },
        ),
        Marker::Floor => Some(
            Rect { left: (-w) as i32, bottom: (-h) as i32, right: w as i32, top: (t - h) as i32 },
        ),
        Marker::LeftWall => Some(
            Rect {
                left: (-w) as i32,
                bottom: (t - h) as i32,
                right: (t - w) as i32,
                top: (h - t) as i32,
            },
        ),
        Marker::RightWall => Some(
            Rect {
                left: (w - t) as i32,
                bottom: (t - h) as i32,
                right: w as i32,
                top: (h - t) as i32,
            },
        ),
        _ => None,
    }
}

/// The area the paddle covers when it is created: centred, resting a little
/// above the floor.
pub open spec fn paddle_area(viewport: Viewport) -> Rect {
    let bottom = WALL_THICKNESS + PADDLE_CLEARANCE - viewport.half_height();
    Rect {
        left: (-(BLUE_RECTANGLE_WIDTH / 2)) as i32,
        bottom: bottom as i32,
        right: (BLUE_RECTANGLE_WIDTH / 2) as i32,
        top: (bottom + BLUE_RECTANGLE_HEIGHT) as i32,
    }
}

/// The horizontal strip in which balls appear, as the least and greatest `x`
/// of a ball's centre. A viewport that is missing, or too narrow to hold a
/// ball between its side walls, has no such strip.
pub open spec fn spawn_bounds(viewport: Option<Viewport>) -> Option<(i32, i32)> {
    match viewport {
        Some(v) => {
            let reach = v.half_width() - spawn_margin();
            if reach >= 0 {
                Some(((-reach) as i32, reach as i32))
            } else {
                None
            }
        },
        None => None,
    }
}

/// The height at which balls appear: just below the ceiling.
pub open spec fn spawn_height(viewport: Viewport) -> int {
    viewport.half_height() - spawn_margin()
}

/// Lays out one wall.
pub fn wall(boundary: Marker, viewport: Viewport) -> (area: Option<Rect>)
    ensures
        area == wall_area(boundary, viewport),
        area is Some <==> boundary.is_wall(),
{
    let w: i32 = (viewport.width / 2) as i32;
    let h: i32 = (viewport.height / 2) as i32;
    match boundary {
        Marker::Ceil => Some(Rect { left: -w, bottom: h - WALL_THICKNESS, right: w, top: h }),
        Marker::Floor => Some(Rect { left: -w, bottom: -h, right: w, top: WALL_THICKNESS - h }),
        Marker::LeftWall => Some(
            Rect {
                left: -w,
                bottom: WALL_THICKNESS - h,
                right: WALL_THICKNESS - w,
                top: h - WALL_THICKNESS,
            },
        ),
        Marker::RightWall => Some(
            Rect {
                left: w - WALL_THICKNESS,
                bottom: WALL_THICKNESS - h,
                right: w,
                top: h - WALL_THICKNESS,
            },
        ),
        _ => None,
    }
}

/// Lays out the paddle.
pub fn paddle(viewport: Viewport) -> (area: Rect)
    ensures
        area == paddle_area(viewport),
{
    let h: i32 = (viewport.height / 2) as i32;
    let bottom: i32 = WALL_THICKNESS + PADDLE_CLEARANCE - h;
    Rect {
        left: -(BLUE_RECTANGLE_WIDTH / 2),
        bottom,
        right: BLUE_RECTANGLE_WIDTH / 2,
        top: bottom + BLUE_RECTANGLE_HEIGHT,
    }
}

/// Finds the strip in which balls appear.
pub fn spawn_strip(viewport: Option<Viewport>) -> (bounds: Option<(i32, i32)>)
    ensures
        bounds == spawn_bounds(viewport),
        bounds matches Some((low, high)) ==> low <= high,
{
    match viewport {
        Some(v) => {
            let w: i32 = (v.width / 2) as i32;
            let margin: i32 = WALL_THICKNESS + RED_BALL_RADIUS + SPAWN_PADDING;
            if w >= margin {
                Some((margin - w, w - margin))
            } else {
                None
            }
        },
        None => None,
    }
}

/// Finds the height at which balls appear.
pub fn spawn_level(viewport: Viewport) -> (y: i32)
    ensures
        y == spawn_height(viewport),
{
    let h: i32 = (viewport.height / 2) as i32;
    h - (WALL_THICKNESS + RED_BALL_RADIUS + SPAWN_PADDING)
}

} // verus!
