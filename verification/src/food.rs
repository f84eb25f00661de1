//! Food placement: rejection sampling of a random grid cell until one is
//! found that no live snake segment occupies.
//!
//! The sampler draws a horizontal cell index uniformly from `[0, FOOD_COLS)`
//! and a vertical one from `[0, FOOD_ROWS)`, scales both by the grid size and
//! offsets them by a fixed margin, and rejects the candidate if the snake
//! occupies it. The playfield has `29 * 21 = 609` candidate cells while the
//! snake has at most 499 segments, so a free cell always exists and the loop
//! terminates almost surely.

use vstd::arithmetic::div_mod::{
    lemma_div_by_multiple, lemma_div_pos_is_pos, lemma_fundamental_div_mod, lemma_mod_bound,
    lemma_mod_multiples_basic,
};
use vstd::prelude::*;
use vstd::seq_lib::seq_to_set_is_finite;
use vstd::set_lib::{lemma_int_range, lemma_len_subset, set_int_range};

use crate::geometry::{in_bounds_spec, Pos, GRID_SIZE};
use crate::snake::Snake;

verus! {

/// Number of candidate food columns; the horizontal cell index is drawn
/// uniformly from `[0, FOOD_COLS)`.
pub const FOOD_COLS: i32 = 29;

/// Number of candidate food rows; the vertical cell index is drawn uniformly
/// from `[0, FOOD_ROWS)`.
pub const FOOD_ROWS: i32 = 21;

/// Offset of the candidate grid from the screen origin, on both axes.
pub const FOOD_MARGIN: i32 = 40;

/// Number of candidate food cells.
pub const FOOD_CELL_COUNT: i32 = FOOD_COLS * FOOD_ROWS;

/// Rejected samples the random sampler is budgeted before the deterministic
/// scan takes over. The budget exists only so that every loop in this crate
/// provably terminates; no run ever comes near it.
const SAMPLE_BUDGET: u64 = 0xffff_ffff_ffff_ffff;

/// A position the food sampler can produce: a point of the margin-offset
/// grid, `(cx * GRID_SIZE + FOOD_MARGIN, cy * GRID_SIZE + FOOD_MARGIN)` for
/// cell indices `cx` in `[0, FOOD_COLS)` and `cy` in `[0, FOOD_ROWS)`.
pub open spec fn is_food_cell(p: Pos) -> bool {
    &&& FOOD_MARGIN as int <= p.x as int <= FOOD_MARGIN as int + (FOOD_COLS as int - 1) * (
    GRID_SIZE as int)
    &&& FOOD_MARGIN as int <= p.y as int <= FOOD_MARGIN as int + (FOOD_ROWS as int - 1) * (
    GRID_SIZE as int)
    &&& (p.x as int - FOOD_MARGIN as int) % (GRID_SIZE as int) == 0
    &&& (p.y as int - FOOD_MARGIN as int) % (GRID_SIZE as int) == 0
}

/// The candidate cell with row-major index `k`.
pub open spec fn food_cell_at(k: int) -> Pos {
    Pos {
        x: (FOOD_MARGIN as int + (k % (FOOD_COLS as int)) * (GRID_SIZE as int)) as i32,
        y: (FOOD_MARGIN as int + (k / (FOOD_COLS as int)) * (GRID_SIZE as int)) as i32,
    }
}

/// The row-major index of a candidate cell.
pub open spec fn food_cell_index(p: Pos) -> int {
    ((p.y as int - FOOD_MARGIN as int) / (GRID_SIZE as int)) * (FOOD_COLS as int) + (p.x as int
        - FOOD_MARGIN as int) / (GRID_SIZE as int)
}

/// Every cell the food sampler can produce lies inside the playfield, so the
/// food can never itself sit on a collision position.
pub proof fn lemma_food_cell_in_bounds(p: Pos)
    requires
        is_food_cell(p),
    ensures
        in_bounds_spec(p),
{
}

/// Each index in `[0, FOOD_CELL_COUNT)` names a distinct candidate cell, and
/// `food_cell_index` recovers the index.
proof fn lemma_cell_roundtrip(k: int)
    requires
        0 <= k < FOOD_CELL_COUNT as int,
    ensures
        is_food_cell(food_cell_at(k)),
        food_cell_index(food_cell_at(k)) == k,
{
    let c = FOOD_COLS as int;
    let g = GRID_SIZE as int;
    let cx = k % c;
    let cy = k / c;
    lemma_mod_bound(k, c);
    lemma_div_pos_is_pos(k, c);
    lemma_fundamental_div_mod(k, c);
    lemma_mod_multiples_basic(cx, g);
    lemma_mod_multiples_basic(cy, g);
    lemma_div_by_multiple(cx, g);
    lemma_div_by_multiple(cy, g);
}

/// Some candidate cell is always free: the snake has fewer live segments
/// than the grid has cells.
proof fn lemma_free_cell_exists(s: Snake)
    requires
        s.wf(),
    ensures
        exists|k: int|
            0 <= k < FOOD_CELL_COUNT as int && !s.occupies(#[trigger] food_cell_at(k)),
{
    if forall|k: int|
        0 <= k < FOOD_CELL_COUNT as int ==> s.occupies(#[trigger] food_cell_at(k)) {
        let live = s.cells@.subrange(0, s.length as int);
        let idxs = live.map_values(|p: Pos| food_cell_index(p));
        idxs.lemma_cardinality_of_set();
        seq_to_set_is_finite::<int>(idxs);
        lemma_int_range(0, FOOD_CELL_COUNT as int);
        assert forall|k: int|
            0 <= k < FOOD_CELL_COUNT as int implies idxs.to_set().contains(k) by {
            lemma_cell_roundtrip(k);
            let p = food_cell_at(k);
            let i = choose|i: int| 0 <= i < s.length && s.cells@[i] == p;
            assert(idxs[i] == food_cell_index(p));
            assert(idxs[i] == k);
            assert(idxs.contains(k));
        }
        assert(set_int_range(0, FOOD_CELL_COUNT as int).subset_of(idxs.to_set()));
        lemma_len_subset(set_int_range(0, FOOD_CELL_COUNT as int), idxs.to_set());
    }
}

/// Relies on macroquad::rand::gen_range::<i32>, which draws r uniformly in
/// [0, 1) as a 32-bit draw over 2^32 and returns low + (high - low) * r,
/// computed in f64 and truncated toward zero. For bounds up to 2^20 the
/// product and sum stay far enough below `high` that no rounding can reach
/// it (r is at most 1 - 2^-32, and near such small `high` an ulp is smaller
/// than high * 2^-32), so the result lies in [low, high); near i32::MAX that
/// argument fails, so larger bounds are not admitted.
#[verifier::external_body]
fn gen_range_i32(low: i32, high: i32) -> (r: i32)
    requires
        0 <= low < high <= 1048576,
    ensures
        low <= r < high,
{
    macroquad::rand::gen_range(low, high)
}

/// Draw random candidate cells, rejecting each one some live segment of
/// `snake` occupies, and return the first free one. Should the sampling
/// budget ever run out, a deterministic scan of the candidate grid finds a
/// free cell, which must exist because the grid is larger than the snake can
/// ever be.
pub fn place_food(snake: &Snake) -> (p: Pos)
    requires
        snake.wf(),
    ensures
        is_food_cell(p),
        !snake.occupies(p),
{
    let mut fuel: u64 = SAMPLE_BUDGET;
    while fuel > 0
        invariant
            snake.wf(),
        decreases fuel,
    {
        fuel = fuel - 1;
        let cx = gen_range_i32(0, FOOD_COLS);
        let cy = gen_range_i32(0, FOOD_ROWS);
        let candidate = Pos { x: cx * GRID_SIZE + FOOD_MARGIN, y: cy * GRID_SIZE + FOOD_MARGIN };
        proof {
            lemma_mod_multiples_basic(cx as int, GRID_SIZE as int);
            lemma_mod_multiples_basic(cy as int, GRID_SIZE as int);
        }
        if !snake.occupies_cell(candidate) {
            return candidate;
        }
    }
    let mut k: i32 = 0;
    while k < FOOD_CELL_COUNT
        invariant
            snake.wf(),
            0 <= k <= FOOD_CELL_COUNT,
            forall|j: int| 0 <= j < k ==> snake.occupies(#[trigger] food_cell_at(j)),
        decreases FOOD_CELL_COUNT - k,
    {
        let cx = k % FOOD_COLS;
        let cy = k / FOOD_COLS;
        proof {
            lemma_mod_bound(k as int, FOOD_COLS as int);
            lemma_div_pos_is_pos(k as int, FOOD_COLS as int);
            lemma_fundamental_div_mod(k as int, FOOD_COLS as int);
        }
        let candidate = Pos { x: cx * GRID_SIZE + FOOD_MARGIN, y: cy * GRID_SIZE + FOOD_MARGIN };
        proof {
            lemma_cell_roundtrip(k as int);
            assert(candidate == food_cell_at(k as int));
        }
        if !snake.occupies_cell(candidate) {
            return candidate;
        }
        k = k + 1;
    }
    proof {
        lemma_free_cell_exists(*snake);
    }
    Pos { x: FOOD_MARGIN, y: FOOD_MARGIN }
}

} // verus!
