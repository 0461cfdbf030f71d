//! The mathematical model of the simulation: a grid of cells on a torus and
//! the generation step that evolves it.

use vstd::prelude::*;
use crate::arith::wrap;
use crate::cell::{transition, Cell};

verus! {

/// A rectangular grid of cells, stored row by row, whose opposite edges are
/// joined.
#[verifier::ext_equal]
pub struct Grid {
    pub width: int,
    pub height: int,
    pub cells: Seq<Cell>,
}

impl Grid {
    /// The grid of the given dimensions whose cell at each linear index is
    /// the one that `pattern` gives for that index.
    pub open spec fn from_pattern(width: int, height: int, pattern: spec_fn(int) -> Cell) -> Grid {
        Grid { width, height, cells: Seq::new((width * height) as nat, pattern) }
    }

    /// Both dimensions are positive and there is exactly one cell per position.
    pub open spec fn wf(self) -> bool {
        &&& self.width > 0
        &&& self.height > 0
        &&& self.cells.len() == self.width * self.height
    }

    /// Whether `(row, col)` is a position of the grid.
    pub open spec fn contains(self, row: int, col: int) -> bool {
        0 <= row < self.height && 0 <= col < self.width
    }

    /// The place of position `(row, col)` in the row-major cell buffer.
    pub open spec fn index_of(self, row: int, col: int) -> int {
        row * self.width + col
    }

    /// The cell at `(row, col)`.
    pub open spec fn cell(self, row: int, col: int) -> Cell {
        self.cells[self.index_of(row, col)]
    }

    /// The row offset with the given ordinal: one row up, the same row, one
    /// row down. "Up" is written as `height - 1` rows down.
    pub open spec fn row_offset(self, ordinal: int) -> int {
        if ordinal == 0 {
            self.height - 1
        } else if ordinal == 1 {
            0
        } else {
            1
        }
    }

    /// The column offset with the given ordinal: one column left, the same
    /// column, one column right. "Left" is written as `width - 1` columns right.
    pub open spec fn col_offset(self, ordinal: int) -> int {
        if ordinal == 0 {
            self.width - 1
        } else if ordinal == 1 {
            0
        } else {
            1
        }
    }

    /// The cell reached from `(row, col)` by the offsets `(dr, dc)`, wrapping
    /// around both axes.
    pub open spec fn neighbor(self, row: int, col: int, dr: int, dc: int) -> Cell {
        self.cell(wrap(row, dr, self.height), wrap(col, dc, self.width))
    }

    /// What the offset pair `(dr, dc)` adds to the neighbor count of
    /// `(row, col)`: nothing for the pair `(0, 0)`, and otherwise the count of
    /// the cell it reaches.
    pub open spec fn contribution(self, row: int, col: int, dr: int, dc: int) -> int {
        if dr == 0 && dc == 0 {
            0
        } else {
            self.neighbor(row, col, dr, dc).as_count() as int
        }
    }

    /// The number of live cells around `(row, col)`: the contributions of all
    /// pairs of a row offset and a column offset.
    pub open spec fn live_neighbors(self, row: int, col: int) -> int {
        let up: int = self.height - 1;
        let left: int = self.width - 1;
        self.contribution(row, col, up, left) + self.contribution(row, col, up, 0)
            + self.contribution(row, col, up, 1) + self.contribution(row, col, 0, left)
            + self.contribution(row, col, 0, 0) + self.contribution(row, col, 0, 1)
            + self.contribution(row, col, 1, left) + self.contribution(row, col, 1, 0)
            + self.contribution(row, col, 1, 1)
    }

    /// The contributions of the first `k` offset pairs, taken row offset by
    /// row offset.
    pub open spec fn neighbor_sum(self, row: int, col: int, k: int) -> int
        decreases k,
    {
        if k <= 0 {
            0
        } else {
            self.neighbor_sum(row, col, k - 1) + self.contribution(
                row,
                col,
                self.row_offset((k - 1) / 3),
                self.col_offset((k - 1) % 3),
            )
        }
    }

    /// The state of the cell at `(row, col)` in the next generation.
    pub open spec fn next_cell(self, row: int, col: int) -> Cell {
        transition(self.cell(row, col), self.live_neighbors(row, col))
    }

    /// The next generation: every cell evolves at once from the current one.
    pub open spec fn step(self) -> Grid {
        Grid {
            width: self.width,
            height: self.height,
            cells: Seq::new(
                self.cells.len(),
                |i: int| self.next_cell(i / self.width, i % self.width),
            ),
        }
    }

    /// The rendered text of one row: a glyph per cell, then a line break.
    pub open spec fn line(self, row: int) -> Seq<char> {
        Seq::new(self.width as nat, |col: int| self.cell(row, col).glyph()).push('\n')
    }

    /// The rendered text of the first `n` rows.
    pub open spec fn lines(self, n: int) -> Seq<char>
        decreases n,
    {
        if n <= 0 {
            Seq::empty()
        } else {
            self.lines(n - 1) + self.line(n - 1)
        }
    }

    /// The rendered text of the whole grid: its rows from top to bottom.
    pub open spec fn text(self) -> Seq<char> {
        self.lines(self.height)
    }

    /// The grid after `n` generations.
    pub open spec fn step_n(self, n: nat) -> Grid
        decreases n,
    {
        if n == 0 {
            self
        } else {
            self.step_n((n - 1) as nat).step()
        }
    }
}

/// All nine offset pairs together give the neighbor count.
pub proof fn lemma_neighbor_sum_total(grid: Grid, row: int, col: int)
    ensures
        grid.neighbor_sum(row, col, 9) == grid.live_neighbors(row, col),
{
    reveal_with_fuel(Grid::neighbor_sum, 10);
}

/// The first `k` offset pairs add at most `k` to the count.
pub proof fn lemma_neighbor_sum_range(grid: Grid, row: int, col: int, k: int)
    requires
        0 <= k,
    ensures
        0 <= grid.neighbor_sum(row, col, k) <= k,
    decreases k,
{
    if k > 0 {
        lemma_neighbor_sum_range(grid, row, col, k - 1);
    }
}

} // verus!
