//! What holds of every grid and of every generation step.

use vstd::prelude::*;
use vstd::arithmetic::div_mod::lemma_mod_add_multiples_vanish;
use crate::arith::{
    lemma_index_in_bounds, lemma_index_split, lemma_wrap_backward, lemma_wrap_forward, wrap,
};
use crate::cell::{transition, Cell};
use crate::grid::Grid;

verus! {

/// A generation step keeps the dimensions of the grid, and with them the
/// number of cells.
pub proof fn lemma_step_keeps_dimensions(grid: Grid)
    requires
        grid.wf(),
    ensures
        grid.step().wf(),
        grid.step().width == grid.width,
        grid.step().height == grid.height,
        grid.step().cells.len() == grid.cells.len(),
{
}

/// Any number of generation steps keeps the dimensions of the grid.
pub proof fn lemma_steps_keep_dimensions(grid: Grid, n: nat)
    requires
        grid.wf(),
    ensures
        grid.step_n(n).wf(),
        grid.step_n(n).width == grid.width,
        grid.step_n(n).height == grid.height,
        grid.step_n(n).cells.len() == grid.cells.len(),
    decreases n,
{
    if n > 0 {
        lemma_steps_keep_dimensions(grid, (n - 1) as nat);
        lemma_step_keeps_dimensions(grid.step_n((n - 1) as nat));
    }
}

/// Every cell of the next generation is decided by the rule from the cell's
/// own state and its live neighbors in the current generation, and from
/// nothing else.
pub proof fn lemma_step_cell(grid: Grid, row: int, col: int)
    requires
        grid.wf(),
        grid.contains(row, col),
    ensures
        grid.step().cell(row, col) == transition(
            grid.cell(row, col),
            grid.live_neighbors(row, col),
        ),
{
    lemma_index_in_bounds(row, col, grid.width, grid.height);
    lemma_index_split(row, col, grid.width);
}

/// A cell has between zero and eight live neighbors.
pub proof fn lemma_live_neighbors_range(grid: Grid, row: int, col: int)
    ensures
        0 <= grid.live_neighbors(row, col) <= 8,
{
}

/// Whether some pair of a row offset and a column offset, other than the pair
/// that stays in place, leads from `(row, col)` to `(other_row, other_col)`.
pub open spec fn is_neighbor(grid: Grid, row: int, col: int, other_row: int, other_col: int) -> bool {
    exists|i: int, j: int|
        0 <= i < 3 && 0 <= j < 3 && !(grid.row_offset(i) == 0 && grid.col_offset(j) == 0)
            && other_row == #[trigger] wrap(row, grid.row_offset(i), grid.height) && other_col
            == #[trigger] wrap(col, grid.col_offset(j), grid.width)
}

/// A live cell is counted by each of its neighbors.
pub proof fn lemma_neighbor_is_counted(
    grid: Grid,
    row: int,
    col: int,
    other_row: int,
    other_col: int,
)
    requires
        is_neighbor(grid, row, col, other_row, other_col),
    ensures
        grid.live_neighbors(row, col) >= grid.cell(other_row, other_col).as_count(),
{
    let (i, j): (int, int) = choose|i: int, j: int|
        0 <= i < 3 && 0 <= j < 3 && !(grid.row_offset(i) == 0 && grid.col_offset(j) == 0)
            && other_row == #[trigger] wrap(row, grid.row_offset(i), grid.height) && other_col
            == #[trigger] wrap(col, grid.col_offset(j), grid.width);
    assert(grid.contribution(row, col, grid.row_offset(i), grid.col_offset(j)) == grid.cell(
        other_row,
        other_col,
    ).as_count());
}

/// The grid wraps around at its corners: the cell in the last row and last
/// column is a neighbor of the cell in the first row and first column.
pub proof fn lemma_corner_wraps(grid: Grid)
    requires
        grid.wf(),
    ensures
        is_neighbor(grid, 0, 0, grid.height - 1, grid.width - 1),
        grid.live_neighbors(0, 0) >= grid.cell(grid.height - 1, grid.width - 1).as_count(),
{
    lemma_wrap_backward(0, grid.height);
    lemma_wrap_backward(0, grid.width);
    lemma_wrap_forward(0, grid.height);
    lemma_wrap_forward(0, grid.width);
    let i: int = if grid.height == 1 { 2 } else { 0 };
    let j: int = if grid.width == 1 { 2 } else { 0 };
    assert(grid.height - 1 == wrap(0, grid.row_offset(i), grid.height));
    assert(grid.width - 1 == wrap(0, grid.col_offset(j), grid.width));
    lemma_neighbor_is_counted(grid, 0, 0, grid.height - 1, grid.width - 1);
}

/// The number of live cells among the eight positions one step away from
/// `(row, col)` in each direction, taken modulo the dimensions.
pub open spec fn moore_sum(grid: Grid, row: int, col: int) -> int {
    grid.neighbor(row, col, -1, -1).as_count() + grid.neighbor(row, col, -1, 0).as_count()
        + grid.neighbor(row, col, -1, 1).as_count() + grid.neighbor(row, col, 0, -1).as_count()
        + grid.neighbor(row, col, 0, 1).as_count() + grid.neighbor(row, col, 1, -1).as_count()
        + grid.neighbor(row, col, 1, 0).as_count() + grid.neighbor(row, col, 1, 1).as_count()
}

/// On a grid with at least two rows and two columns the neighbor count is the
/// number of live cells among the eight positions one step away in each
/// direction.
pub proof fn lemma_live_neighbors_is_moore_sum(grid: Grid, row: int, col: int)
    requires
        grid.wf(),
        grid.width >= 2,
        grid.height >= 2,
    ensures
        grid.live_neighbors(row, col) == moore_sum(grid, row, col),
{
    lemma_mod_add_multiples_vanish(row - 1, grid.height);
    lemma_mod_add_multiples_vanish(col - 1, grid.width);
    assert(wrap(row, grid.height - 1, grid.height) == wrap(row, -1, grid.height));
    assert(wrap(col, grid.width - 1, grid.width) == wrap(col, -1, grid.width));
}

/// A live cell with no live neighbor is dead in the next generation.
pub proof fn lemma_isolated_cell_dies(grid: Grid, row: int, col: int)
    requires
        grid.wf(),
        grid.contains(row, col),
        grid.cell(row, col) == Cell::Alive,
        grid.live_neighbors(row, col) == 0,
    ensures
        grid.step().cell(row, col) == Cell::Dead,
{
    lemma_step_cell(grid, row, col);
}

/// A dead cell is alive in the next generation exactly when three of its
/// neighbors are alive now; with two or with four it stays dead.
pub proof fn lemma_birth_needs_three(grid: Grid, row: int, col: int)
    requires
        grid.wf(),
        grid.contains(row, col),
        grid.cell(row, col) == Cell::Dead,
    ensures
        grid.step().cell(row, col) == Cell::Alive <==> grid.live_neighbors(row, col) == 3,
        grid.live_neighbors(row, col) == 2 ==> grid.step().cell(row, col) == Cell::Dead,
        grid.live_neighbors(row, col) == 4 ==> grid.step().cell(row, col) == Cell::Dead,
{
    lemma_step_cell(grid, row, col);
}

/// A live cell stays alive exactly when two or three of its neighbors are
/// alive now.
pub proof fn lemma_survival_needs_two_or_three(grid: Grid, row: int, col: int)
    requires
        grid.wf(),
        grid.contains(row, col),
        grid.cell(row, col) == Cell::Alive,
    ensures
        grid.step().cell(row, col) == Cell::Alive <==> grid.live_neighbors(row, col) == 2
            || grid.live_neighbors(row, col) == 3,
{
    lemma_step_cell(grid, row, col);
}

} // verus!
