//! Two classic patterns and how they evolve: the block, which never changes,
//! and the blinker, which turns by a quarter with every generation.

use vstd::prelude::*;
use crate::arith::{
    lemma_index_join, lemma_wrap_backward, lemma_wrap_forward, lemma_wrap_stay, wrap,
};
use crate::cell::Cell;
use crate::grid::Grid;
use crate::laws::{lemma_step_cell, lemma_step_keeps_dimensions};

verus! {

/// The closed forms of the three places that the offsets reach from
/// `position` on an axis of `n` positions.
proof fn lemma_wrap_axis(position: int, n: int)
    requires
        0 <= position < n,
    ensures
        wrap(position, 0, n) == position,
        wrap(position, 1, n) == if position == n - 1 {
            0
        } else {
            position + 1
        },
        wrap(position, n - 1, n) == if position == 0 {
            n - 1
        } else {
            position - 1
        },
{
    lemma_wrap_stay(position, n);
    lemma_wrap_forward(position, n);
    lemma_wrap_backward(position, n);
}

/// Two grids of the same dimensions whose cells agree at every position are
/// the same grid.
proof fn lemma_grids_equal(first: Grid, second: Grid)
    requires
        first.wf(),
        second.wf(),
        first.width == second.width,
        first.height == second.height,
        forall|row: int, col: int|
            first.contains(row, col) ==> first.cell(row, col) == second.cell(row, col),
    ensures
        first == second,
{
    assert forall|i: int| 0 <= i < first.cells.len() implies first.cells[i] == second.cells[i] by {
        lemma_index_join(i, first.width, first.height);
        assert(first.cell(i / first.width, i % first.width) == second.cell(
            i / first.width,
            i % first.width,
        ));
    }
    assert(first.cells =~= second.cells);
}

/// Whether `(row, col)` lies in the block of two rows and two columns whose
/// upper left cell is `(top, left)`. The block may reach across an edge.
pub open spec fn in_block(grid: Grid, top: int, left: int, row: int, col: int) -> bool {
    &&& row == top || row == wrap(top, 1, grid.height)
    &&& col == left || col == wrap(left, 1, grid.width)
}

/// Whether the live cells of the grid are exactly those of the block whose
/// upper left cell is `(top, left)`.
pub open spec fn is_block(grid: Grid, top: int, left: int) -> bool {
    forall|row: int, col: int|
        grid.contains(row, col) ==> (#[trigger] grid.cell(row, col) == Cell::Alive <==> in_block(
            grid,
            top,
            left,
            row,
            col,
        ))
}

/// In a grid that holds a block and nothing else, no cell changes.
proof fn lemma_block_cell_stays(grid: Grid, top: int, left: int, row: int, col: int)
    requires
        grid.wf(),
        grid.width >= 4,
        grid.height >= 4,
        grid.contains(top, left),
        is_block(grid, top, left),
        grid.contains(row, col),
    ensures
        grid.next_cell(row, col) == grid.cell(row, col),
{
    lemma_wrap_axis(row, grid.height);
    lemma_wrap_axis(col, grid.width);
    lemma_wrap_axis(top, grid.height);
    lemma_wrap_axis(left, grid.width);
}

/// A block of two by two live cells on an otherwise dead grid of at least
/// four rows and four columns is unchanged by a generation step.
pub proof fn lemma_block_is_still(grid: Grid, top: int, left: int)
    requires
        grid.wf(),
        grid.width >= 4,
        grid.height >= 4,
        grid.contains(top, left),
        is_block(grid, top, left),
    ensures
        grid.step() == grid,
{
    lemma_step_keeps_dimensions(grid);
    assert forall|row: int, col: int| grid.contains(row, col) implies grid.step().cell(row, col)
        == grid.cell(row, col) by {
        lemma_step_cell(grid, row, col);
        lemma_block_cell_stays(grid, top, left, row, col);
    }
    lemma_grids_equal(grid.step(), grid);
}

/// A block of two by two live cells on an otherwise dead grid of at least
/// four rows and four columns is unchanged by any number of generation steps.
pub proof fn lemma_block_stays_still(grid: Grid, top: int, left: int, n: nat)
    requires
        grid.wf(),
        grid.width >= 4,
        grid.height >= 4,
        grid.contains(top, left),
        is_block(grid, top, left),
    ensures
        grid.step_n(n) == grid,
    decreases n,
{
    if n > 0 {
        lemma_block_stays_still(grid, top, left, (n - 1) as nat);
        lemma_block_is_still(grid, top, left);
    }
}

/// Whether `position` is `centre` or one of the two places next to it on an
/// axis of `n` positions whose two ends are joined.
pub open spec fn within_one(position: int, centre: int, n: int) -> bool {
    position == wrap(centre, n - 1, n) || position == centre || position == wrap(centre, 1, n)
}

/// Whether the live cells of the grid are exactly three in a row: the cell
/// at `(row, col)` and the cells to its left and to its right.
pub open spec fn is_horizontal_blinker(grid: Grid, row: int, col: int) -> bool {
    forall|r: int, c: int|
        grid.contains(r, c) ==> (#[trigger] grid.cell(r, c) == Cell::Alive <==> r == row
            && within_one(c, col, grid.width))
}

/// Whether the live cells of the grid are exactly three in a column: the
/// cell at `(row, col)` and the cells above and below it.
pub open spec fn is_vertical_blinker(grid: Grid, row: int, col: int) -> bool {
    forall|r: int, c: int|
        grid.contains(r, c) ==> (#[trigger] grid.cell(r, c) == Cell::Alive <==> c == col
            && within_one(r, row, grid.height))
}

/// A generation step turns three live cells in a row into three live cells
/// in a column with the same centre.
pub proof fn lemma_blinker_turns_upright(grid: Grid, row: int, col: int)
    requires
        grid.wf(),
        grid.width >= 5,
        grid.height >= 5,
        grid.contains(row, col),
        is_horizontal_blinker(grid, row, col),
    ensures
        is_vertical_blinker(grid.step(), row, col),
{
    lemma_wrap_axis(row, grid.height);
    lemma_wrap_axis(col, grid.width);
    assert forall|r: int, c: int| grid.contains(r, c) implies (#[trigger] grid.step().cell(r, c)
        == Cell::Alive <==> c == col && within_one(r, row, grid.height)) by {
        lemma_step_cell(grid, r, c);
        lemma_wrap_axis(r, grid.height);
        lemma_wrap_axis(c, grid.width);
    }
}

/// A generation step turns three live cells in a column into three live
/// cells in a row with the same centre.
pub proof fn lemma_blinker_turns_flat(grid: Grid, row: int, col: int)
    requires
        grid.wf(),
        grid.width >= 5,
        grid.height >= 5,
        grid.contains(row, col),
        is_vertical_blinker(grid, row, col),
    ensures
        is_horizontal_blinker(grid.step(), row, col),
{
    lemma_wrap_axis(row, grid.height);
    lemma_wrap_axis(col, grid.width);
    assert forall|r: int, c: int| grid.contains(r, c) implies (#[trigger] grid.step().cell(r, c)
        == Cell::Alive <==> r == row && within_one(c, col, grid.width)) by {
        lemma_step_cell(grid, r, c);
        lemma_wrap_axis(r, grid.height);
        lemma_wrap_axis(c, grid.width);
    }
}

/// Three live cells in a row on an otherwise dead grid of at least five rows
/// and five columns return to where they were after two generation steps.
pub proof fn lemma_blinker_has_period_two(grid: Grid, row: int, col: int)
    requires
        grid.wf(),
        grid.width >= 5,
        grid.height >= 5,
        grid.contains(row, col),
        is_horizontal_blinker(grid, row, col),
    ensures
        is_vertical_blinker(grid.step_n(1), row, col),
        grid.step_n(2) == grid,
{
    reveal_with_fuel(Grid::step_n, 3);
    let once: Grid = grid.step();
    let twice: Grid = once.step();
    lemma_step_keeps_dimensions(grid);
    lemma_step_keeps_dimensions(once);
    lemma_blinker_turns_upright(grid, row, col);
    lemma_blinker_turns_flat(once, row, col);
    assert forall|r: int, c: int| grid.contains(r, c) implies twice.cell(r, c) == grid.cell(
        r,
        c,
    ) by {
        assert(twice.cell(r, c) == Cell::Alive <==> grid.cell(r, c) == Cell::Alive);
    }
    lemma_grids_equal(twice, grid);
}

} // verus!
