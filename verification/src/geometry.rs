//! Grid geometry: the fixed display and playfield dimensions, grid-aligned
//! positions, and movement directions.
//!
//! Every coordinate is in pixels. The playfield is the rectangle in which the
//! snake may legally move; its lower bounds are inclusive and its upper bounds
//! exclusive. The right and bottom bounds are deliberately `dimension - 20`
//! rather than `dimension - BORDER_OFFSET - 10`: the asymmetry is part of the
//! fixed layout and is kept as is.

use vstd::prelude::*;

verus! {

/// Width of the display surface in pixels.
pub const SCREEN_WIDTH: i32 = 640;

/// Height of the display surface in pixels.
pub const SCREEN_HEIGHT: i32 = 480;

/// Side length of one grid cell in pixels; also the distance the snake moves
/// per tick.
pub const GRID_SIZE: i32 = 20;

/// Distance from the screen edge to the drawn border.
pub const BORDER_OFFSET: i32 = 10;

/// Leftmost legal head x coordinate (inclusive).
pub const PLAYFIELD_LEFT: i32 = BORDER_OFFSET + 10;

/// Rightmost legal head x coordinate (exclusive).
pub const PLAYFIELD_RIGHT: i32 = SCREEN_WIDTH - 20;

/// Topmost legal head y coordinate (inclusive).
pub const PLAYFIELD_TOP: i32 = BORDER_OFFSET + 10;

/// Bottommost legal head y coordinate (exclusive).
pub const PLAYFIELD_BOTTOM: i32 = SCREEN_HEIGHT - 20;

/// A point on the display surface, in pixels. The origin is the top-left
/// corner and y grows downward. Equality is exact.
#[derive(Clone, Copy, PartialEq, Eq, Structural, Debug)]
pub struct Pos {
    pub x: i32,
    pub y: i32,
}

/// A position lies inside the playfield: inclusive on the left and top,
/// exclusive on the right and bottom.
pub open spec fn in_bounds_spec(p: Pos) -> bool {
    &&& PLAYFIELD_LEFT <= p.x < PLAYFIELD_RIGHT
    &&& PLAYFIELD_TOP <= p.y < PLAYFIELD_BOTTOM
}

/// A position has left the playfield; the negation of `in_bounds_spec`.
pub open spec fn hits_boundary(p: Pos) -> bool {
    ||| p.x < PLAYFIELD_LEFT
    ||| p.x >= PLAYFIELD_RIGHT
    ||| p.y < PLAYFIELD_TOP
    ||| p.y >= PLAYFIELD_BOTTOM
}

/// Whether `p` lies inside the playfield.
pub fn in_bounds(p: Pos) -> (r: bool)
    ensures
        r == in_bounds_spec(p),
{
    PLAYFIELD_LEFT <= p.x && p.x < PLAYFIELD_RIGHT && PLAYFIELD_TOP <= p.y && p.y < PLAYFIELD_BOTTOM
}

/// A boundary collision happens exactly when the head has left the playfield
/// rectangle [20, 620) x [20, 460), with the fixed 640 x 480 surface and
/// border offset 10.
pub proof fn lemma_boundary_collision_iff(p: Pos)
    ensures
        hits_boundary(p) <==> !in_bounds_spec(p),
        hits_boundary(p) <==> (p.x < 20 || p.x >= 620 || p.y < 20 || p.y >= 460),
{
}

/// One of the four directions the snake can move in. Each direction stands
/// for a displacement of one grid cell per tick.
#[derive(Clone, Copy, PartialEq, Eq, Structural, Debug)]
pub enum Direction {
    Up,
    Down,
    Left,
    Right,
}

impl Direction {
    /// Horizontal displacement in pixels per tick.
    pub open spec fn spec_dx(self) -> int {
        match self {
            Direction::Left => -GRID_SIZE as int,
            Direction::Right => GRID_SIZE as int,
            _ => 0,
        }
    }

    /// Vertical displacement in pixels per tick.
    pub open spec fn spec_dy(self) -> int {
        match self {
            Direction::Up => -GRID_SIZE as int,
            Direction::Down => GRID_SIZE as int,
            _ => 0,
        }
    }

    /// Whether the direction moves along the horizontal axis.
    pub open spec fn is_horizontal_spec(self) -> bool {
        self == Direction::Left || self == Direction::Right
    }

    /// Whether the direction moves along the horizontal axis.
    pub fn is_horizontal(self) -> (r: bool)
        ensures
            r == self.is_horizontal_spec(),
    {
        match self {
            Direction::Left => true,
            Direction::Right => true,
            _ => false,
        }
    }

    /// Horizontal displacement in pixels per tick.
    pub fn dx(self) -> (r: i32)
        ensures
            r as int == self.spec_dx(),
    {
        match self {
            Direction::Left => -GRID_SIZE,
            Direction::Right => GRID_SIZE,
            _ => 0,
        }
    }

    /// Vertical displacement in pixels per tick.
    pub fn dy(self) -> (r: i32)
        ensures
            r as int == self.spec_dy(),
    {
        match self {
            Direction::Up => -GRID_SIZE,
            Direction::Down => GRID_SIZE,
            _ => 0,
        }
    }
}

/// The direction the snake moves in after a turn request: the request is
/// taken only when it is orthogonal to the current motion axis; a request
/// along the current axis (including an exact reversal) is ignored.
pub open spec fn apply_direction(cur: Direction, req: Direction) -> Direction {
    if req.is_horizontal_spec() != cur.is_horizontal_spec() {
        req
    } else {
        cur
    }
}

/// A turn request never changes the motion axis in place: the direction after
/// the request is either unchanged, or lies on the other axis. In particular
/// an exact reversal is always ignored.
pub proof fn lemma_no_axis_aligned_turn(cur: Direction, req: Direction)
    ensures
        req.is_horizontal_spec() == cur.is_horizontal_spec() ==> apply_direction(cur, req) == cur,
        apply_direction(cur, req) == cur || apply_direction(cur, req).is_horizontal_spec()
            != cur.is_horizontal_spec(),
{
}

} // verus!
