//! The playing field: its size, its cells and their enumeration.

use crate::point::Point;
use vstd::prelude::*;

verus! {

/// Width of the field, in cells.
pub const GRID_X_SIZE: u32 = 40;

/// Height of the field, in cells.
pub const GRID_Y_SIZE: u32 = 30;

/// Side of the square that shows one cell, in pixels.
pub const DOT_SIZE_IN_PX: u32 = 20;

/// Frames per tick at the start of a game. Fewer frames per tick is faster.
pub const INITIAL_SPEED: u32 = 15;

/// By how many frames per tick the game quickens when the snake eats.
pub const ACC_RATE: u32 = 1;

/// The fewest frames per tick the game ever runs at.
pub const TOP_SPEED: u32 = 5;

/// Whether `p` is a cell of the field.
pub open spec fn in_grid(p: Point) -> bool {
    0 <= p.0 < GRID_X_SIZE && 0 <= p.1 < GRID_Y_SIZE
}

/// How many cells the field has.
pub open spec fn cell_count() -> nat {
    (GRID_X_SIZE * GRID_Y_SIZE) as nat
}

/// The cell at place `i` of the enumeration: columns from left to right,
/// each from top to bottom.
pub open spec fn grid_cell(i: int) -> Point {
    Point((i / GRID_Y_SIZE as int) as i32, (i % GRID_Y_SIZE as int) as i32)
}

/// The place of cell `p` in the enumeration.
pub open spec fn cell_index(p: Point) -> int {
    p.0 * GRID_Y_SIZE + p.1
}

/// Every cell of the field, once, in the order of `grid_cell`.
pub open spec fn grid_cells() -> Seq<Point> {
    Seq::new(cell_count(), |i: int| grid_cell(i))
}

/// Whether `p` is a cell of the field.
pub fn on_grid(p: Point) -> (b: bool)
    ensures
        b == in_grid(p),
{
    0 <= p.0 && p.0 < GRID_X_SIZE as i32 && 0 <= p.1 && p.1 < GRID_Y_SIZE as i32
}

/// `grid_cell` and `cell_index` undo each other on the field.
pub proof fn lemma_cell_index(p: Point)
    requires
        in_grid(p),
    ensures
        0 <= cell_index(p) < cell_count(),
        grid_cell(cell_index(p)) == p,
        grid_cells()[cell_index(p)] == p,
{
}

/// The enumeration holds the cells of the field and nothing else.
pub proof fn lemma_grid_cells_are_the_field(p: Point)
    ensures
        grid_cells().contains(p) <==> in_grid(p),
{
    if in_grid(p) {
        lemma_cell_index(p);
    }
    if grid_cells().contains(p) {
        let i = choose|i: int| 0 <= i < grid_cells().len() && grid_cells()[i] == p;
        assert(in_grid(grid_cell(i)));
    }
}

/// The enumeration lists no cell twice.
pub proof fn lemma_grid_cells_distinct()
    ensures
        grid_cells().no_duplicates(),
        grid_cells().len() == cell_count(),
{
    assert forall|i: int, j: int|
        0 <= i < grid_cells().len() && 0 <= j < grid_cells().len() && i != j implies grid_cells()[i]
        != grid_cells()[j] by {
        assert(cell_index(grid_cell(i)) == i);
        assert(cell_index(grid_cell(j)) == j);
    }
}

/// Distinct cells of the field are no more than the field has.
pub proof fn lemma_distinct_cells_fit(cells: Seq<Point>)
    requires
        cells.no_duplicates(),
        forall|i: int| 0 <= i < cells.len() ==> in_grid(#[trigger] cells[i]),
    ensures
        cells.len() <= cell_count(),
{
    lemma_grid_cells_distinct();
    cells.unique_seq_to_set();
    grid_cells().unique_seq_to_set();
    assert forall|p: Point| cells.to_set().contains(p) implies grid_cells().to_set().contains(
        p,
    ) by {
        lemma_grid_cells_are_the_field(p);
    }
    vstd::set_lib::lemma_len_subset(cells.to_set(), grid_cells().to_set());
}

} // verus!
