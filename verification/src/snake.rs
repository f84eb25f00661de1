//! The snake itself: a fixed-capacity arena of segment positions with a
//! separate length counter, the current motion direction, per-tick motion,
//! growth, and the two collision checks.
//!
//! The arena always holds `MAX_SNAKE_LENGTH` slots; only the first `length`
//! of them are live segments, with the head at index 0. Slots past `length`
//! keep whatever value they last held and are never read by the game rules.

use vstd::prelude::*;

use crate::geometry::{apply_direction, Direction, Pos, GRID_SIZE};

verus! {

/// Number of slots in the segment arena. The live length always stays
/// strictly below this, so `grow` silently stops at `MAX_SNAKE_LENGTH - 1`.
pub const MAX_SNAKE_LENGTH: usize = 500;

/// Head x coordinate of a freshly started snake (screen center).
pub const START_X: i32 = 320;

/// Head y coordinate of a freshly started snake (screen center).
pub const START_Y: i32 = 240;

/// Segment count of a freshly started snake.
pub const START_LENGTH: usize = 5;

/// The live length after one growth step: one more segment, unless that
/// would reach the arena capacity, in which case the length is unchanged.
pub open spec fn grown_length(l: int) -> int {
    if l + 1 < MAX_SNAKE_LENGTH as int {
        l + 1
    } else {
        l
    }
}

/// Growth is idempotent at capacity: once the length can no longer grow,
/// growing any number of further times leaves it unchanged.
pub proof fn lemma_grow_idempotent_at_capacity(l: int)
    requires
        l + 1 >= MAX_SNAKE_LENGTH as int,
    ensures
        grown_length(l) == l,
        grown_length(grown_length(l)) == l,
{
}

/// The player-controlled segment chain.
pub struct Snake {
    /// The segment arena; indices `0 .. length` are the live segments, head
    /// first.
    pub cells: Vec<Pos>,
    /// Number of live segments.
    pub length: usize,
    /// Direction the head moves in on the next tick.
    pub dir: Direction,
}

/// A freshly started snake: five segments on the center row, the head at the
/// screen center and the body extending leftward at one-cell spacing, moving
/// rightward, with every unused arena slot zeroed.
pub open spec fn is_initial_snake(s: Snake) -> bool {
    &&& s.cells@.len() == MAX_SNAKE_LENGTH
    &&& s.length == START_LENGTH
    &&& s.dir == Direction::Right
    &&& forall|i: int|
        0 <= i < START_LENGTH ==> (#[trigger] s.cells@[i]).x as int == START_X as int - i * (
        GRID_SIZE as int) && s.cells@[i].y == START_Y
    &&& forall|i: int|
        START_LENGTH <= i < MAX_SNAKE_LENGTH ==> s.cells@[i] == (Pos { x: 0, y: 0 })
}

impl Snake {
    /// The arena is fully allocated and the live length is in range.
    pub open spec fn wf(self) -> bool {
        &&& self.cells@.len() == MAX_SNAKE_LENGTH
        &&& 1 <= self.length < MAX_SNAKE_LENGTH
    }

    /// The head segment.
    pub open spec fn head_spec(self) -> Pos {
        self.cells@[0]
    }

    /// Whether some live segment sits on `p`.
    pub open spec fn occupies(self, p: Pos) -> bool {
        exists|i: int| 0 <= i < self.length && self.cells@[i] == p
    }

    /// Whether the head sits on some other live segment.
    pub open spec fn self_hit(self) -> bool {
        exists|i: int| 1 <= i < self.length && #[trigger] self.cells@[i] == self.cells@[0]
    }

    /// A freshly started snake.
    pub fn initial() -> (s: Snake)
        ensures
            s.wf(),
            is_initial_snake(s),
    {
        let mut cells: Vec<Pos> = Vec::new();
        let mut i: usize = 0;
        while i < MAX_SNAKE_LENGTH
            invariant
                i <= MAX_SNAKE_LENGTH,
                cells@.len() == i,
                forall|j: int| 0 <= j < i ==> cells@[j] == (Pos { x: 0, y: 0 }),
            decreases MAX_SNAKE_LENGTH - i,
        {
            cells.push(Pos { x: 0, y: 0 });
            i = i + 1;
        }
        let mut s = Snake { cells, length: START_LENGTH, dir: Direction::Right };
        let mut k: usize = 0;
        while k < START_LENGTH
            invariant
                k <= START_LENGTH,
                s.cells@.len() == MAX_SNAKE_LENGTH,
                s.length == START_LENGTH,
                s.dir == Direction::Right,
                forall|j: int|
                    0 <= j < k ==> (#[trigger] s.cells@[j]).x as int == START_X as int - j * (
                    GRID_SIZE as int) && s.cells@[j].y == START_Y,
                forall|j: int| k <= j < MAX_SNAKE_LENGTH ==> s.cells@[j] == (Pos { x: 0, y: 0 }),
            decreases START_LENGTH - k,
        {
            s.cells[k] = Pos { x: START_X - (k as i32) * GRID_SIZE, y: START_Y };
            k = k + 1;
        }
        s
    }

    /// The head segment.
    pub fn head(&self) -> (p: Pos)
        requires
            self.wf(),
        ensures
            p == self.head_spec(),
    {
        self.cells[0]
    }

    /// Move the chain one cell: every non-head segment takes the position its
    /// predecessor held before the call, processed tail first, and the head
    /// then moves one cell in the current direction. Unused arena slots are
    /// untouched.
    pub fn advance(&mut self)
        requires
            old(self).wf(),
            i32::MIN <= old(self).head_spec().x as int + old(self).dir.spec_dx() <= i32::MAX,
            i32::MIN <= old(self).head_spec().y as int + old(self).dir.spec_dy() <= i32::MAX,
        ensures
            final(self).wf(),
            final(self).length == old(self).length,
            final(self).dir == old(self).dir,
            final(self).head_spec().x as int == old(self).head_spec().x as int + old(
                self,
            ).dir.spec_dx(),
            final(self).head_spec().y as int == old(self).head_spec().y as int + old(
                self,
            ).dir.spec_dy(),
            forall|i: int|
                1 <= i < old(self).length ==> final(self).cells@[i] == old(self).cells@[i - 1],
            forall|i: int|
                old(self).length <= i < MAX_SNAKE_LENGTH ==> final(self).cells@[i] == old(
                    self,
                ).cells@[i],
    {
        let mut i: usize = self.length;
        while i > 1
            invariant
                1 <= i <= old(self).length,
                self.wf(),
                self.length == old(self).length,
                self.dir == old(self).dir,
                forall|j: int| 0 <= j < i ==> self.cells@[j] == old(self).cells@[j],
                forall|j: int| i <= j < self.length ==> self.cells@[j] == old(self).cells@[j - 1],
                forall|j: int|
                    self.length <= j < MAX_SNAKE_LENGTH ==> self.cells@[j] == old(self).cells@[j],
            decreases i,
        {
            i = i - 1;
            let prev = self.cells[i - 1];
            self.cells[i] = prev;
        }
        let dx = self.dir.dx();
        let dy = self.dir.dy();
        let h = self.cells[0];
        self.cells[0] = Pos { x: h.x + dx, y: h.y + dy };
    }

    /// Add one segment if the arena still has room past the new length;
    /// silently keep the length unchanged otherwise. The new segment becomes
    /// live at whatever position its arena slot last held.
    pub fn grow(&mut self)
        requires
            old(self).wf(),
        ensures
            final(self).wf(),
            final(self).cells == old(self).cells,
            final(self).dir == old(self).dir,
            final(self).length as int == grown_length(old(self).length as int),
    {
        if self.length + 1 < MAX_SNAKE_LENGTH {
            self.length = self.length + 1;
        }
    }

    /// Take a turn request: the direction changes to `req` only when `req`
    /// is orthogonal to the current motion axis; otherwise it is ignored.
    pub fn set_direction(&mut self, req: Direction)
        ensures
            final(self).cells == old(self).cells,
            final(self).length == old(self).length,
            final(self).dir == apply_direction(old(self).dir, req),
    {
        if req.is_horizontal() != self.dir.is_horizontal() {
            self.dir = req;
        }
    }

    /// Whether some live segment sits on `p`.
    pub fn occupies_cell(&self, p: Pos) -> (r: bool)
        requires
            self.wf(),
        ensures
            r == self.occupies(p),
    {
        let mut i: usize = 0;
        while i < self.length
            invariant
                i <= self.length,
                self.wf(),
                forall|j: int| 0 <= j < i ==> self.cells@[j] != p,
            decreases self.length - i,
        {
            if self.cells[i] == p {
                return true;
            }
            i = i + 1;
        }
        false
    }

    /// Whether the head sits on some other live segment; the scan stops at
    /// the first match, which any match makes equivalent to scanning them
    /// all.
    pub fn self_collision(&self) -> (r: bool)
        requires
            self.wf(),
        ensures
            r == self.self_hit(),
    {
        let head = self.cells[0];
        let mut i: usize = 1;
        while i < self.length
            invariant
                1 <= i <= self.length,
                self.wf(),
                head == self.cells@[0],
                forall|j: int| 1 <= j < i ==> self.cells@[j] != head,
            decreases self.length - i,
        {
            if self.cells[i] == head {
                return true;
            }
            i = i + 1;
        }
        false
    }
}

} // verus!
