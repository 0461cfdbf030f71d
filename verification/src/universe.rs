//! The simulator: an owned grid of cells that is created once and then
//! advanced generation by generation.

use vstd::prelude::*;
use vstd::string::StringExecFns;
use crate::arith::{lemma_index_in_bounds, lemma_index_split, wrap_offset};
use crate::cell::Cell;
use crate::grid::{lemma_neighbor_sum_range, lemma_neighbor_sum_total, Grid};

verus! {

/// Why a universe could not be created.
#[derive(Clone, Copy, Debug, PartialEq, Eq, Structural)]
pub enum GridError {
    /// The width or the height is zero.
    InvalidDimensions,
}

/// The number of columns of the default universe.
pub const DEFAULT_WIDTH: u32 = 64;

/// The number of rows of the default universe.
pub const DEFAULT_HEIGHT: u32 = 64;

/// The state of the default initial pattern at a linear index: alive at the
/// multiples of two and of seven.
pub open spec fn default_pattern(index: int) -> Cell {
    if index % 2 == 0 || index % 7 == 0 {
        Cell::Alive
    } else {
        Cell::Dead
    }
}

/// The grid of the given dimensions that holds the default initial pattern.
pub open spec fn default_grid(width: int, height: int) -> Grid {
    Grid::from_pattern(width, height, |index: int| default_pattern(index))
}

/// The state of the default initial pattern at a linear index.
pub fn default_cell(index: usize) -> (cell: Cell)
    ensures
        cell == default_pattern(index as int),
{
    if index % 2 == 0 || index % 7 == 0 {
        Cell::Alive
    } else {
        Cell::Dead
    }
}

/// A grid of cells on a torus, together with its dimensions.
pub struct Universe {
    width: u32,
    height: u32,
    cells: Vec<Cell>,
}

impl View for Universe {
    type V = Grid;

    closed spec fn view(&self) -> Grid {
        Grid { width: self.width as int, height: self.height as int, cells: self.cells@ }
    }
}

impl Default for Universe {
    /// Creates the universe of the default size with the default initial
    /// pattern.
    fn default() -> (universe: Universe)
        ensures
            universe@.wf(),
            universe@ == default_grid(DEFAULT_WIDTH as int, DEFAULT_HEIGHT as int),
    {
        match Universe::new(DEFAULT_WIDTH, DEFAULT_HEIGHT) {
            Ok(universe) => universe,
            Err(_) => unreached(),
        }
    }
}

impl Universe {
    #[verifier::type_invariant]
    spec fn inv(self) -> bool {
        self@.wf()
    }

    /// Creates a universe of the given dimensions whose cell at each linear
    /// index is the one that `pattern` gives for that index.
    pub fn with_pattern<F: Fn(usize) -> Cell>(width: u32, height: u32, pattern: F) -> (result:
        Result<Universe, GridError>)
        requires
            width * height <= usize::MAX,
            forall|i: usize| i < width * height ==> call_requires(pattern, (i,)),
        ensures
            result is Err <==> width == 0 || height == 0,
            result matches Err(e) ==> e == GridError::InvalidDimensions,
            result matches Ok(universe) ==> {
                &&& universe@.wf()
                &&& universe@.width == width
                &&& universe@.height == height
                &&& forall|i: usize|
                    i < width * height ==> call_ensures(pattern, (i,), #[trigger] universe@.cells[i as int])
            },
    {
        if width == 0 || height == 0 {
            return Err(GridError::InvalidDimensions);
        }
        let len: usize = (width as usize) * (height as usize);
        let mut cells: Vec<Cell> = Vec::with_capacity(len);
        let mut index: usize = 0;
        while index < len
            invariant
                index <= len,
                len == width * height,
                cells.len() == index,
                forall|i: usize| i < len ==> call_requires(pattern, (i,)),
                forall|i: usize| i < index ==> call_ensures(pattern, (i,), #[trigger] cells@[i as int]),
            decreases len - index,
        {
            let cell: Cell = pattern(index);
            cells.push(cell);
            index += 1;
        }
        Ok(Universe { width, height, cells })
    }

    /// Creates a universe of the given dimensions with the default initial
    /// pattern.
    pub fn new(width: u32, height: u32) -> (result: Result<Universe, GridError>)
        requires
            width * height <= usize::MAX,
        ensures
            result is Err <==> width == 0 || height == 0,
            result matches Err(e) ==> e == GridError::InvalidDimensions,
            result matches Ok(universe) ==> universe@.wf() && universe@ == default_grid(
                width as int,
                height as int,
            ),
    {
        let result: Result<Universe, GridError> = Universe::with_pattern(
            width,
            height,
            default_cell,
        );
        proof {
            if let Ok(universe) = &result {
                let expected: Grid = default_grid(width as int, height as int);
                assert forall|i: int| 0 <= i < width * height implies #[trigger] universe@.cells[i]
                    == expected.cells[i] by {
                    assert(call_ensures(default_cell, (i as usize,), universe@.cells[i as usize as int]));
                }
                assert(universe@.cells =~= expected.cells);
            }
        }
        result
    }

    /// The number of columns.
    pub fn width(&self) -> (width: u32)
        ensures
            width == self@.width,
            self@.wf(),
    {
        proof {
            use_type_invariant(self);
        }
        self.width
    }

    /// The number of rows.
    pub fn height(&self) -> (height: u32)
        ensures
            height == self@.height,
            self@.wf(),
    {
        proof {
            use_type_invariant(self);
        }
        self.height
    }

    /// The place of position `(row, column)` in the row-major cell buffer.
    pub fn get_index(&self, row: u32, column: u32) -> (index: usize)
        requires
            self@.contains(row as int, column as int),
        ensures
            index == self@.index_of(row as int, column as int),
            index < self@.cells.len(),
    {
        proof {
            use_type_invariant(self);
            lemma_index_in_bounds(row as int, column as int, self.width as int, self.height as int);
            assert(self.cells@.len() == self.cells.len() <= usize::MAX);
        }
        (row as usize) * (self.width as usize) + (column as usize)
    }

    /// The cell at position `(row, column)`.
    pub fn cell(&self, row: u32, column: u32) -> (cell: Cell)
        requires
            self@.contains(row as int, column as int),
        ensures
            cell == self@.cell(row as int, column as int),
    {
        let index: usize = self.get_index(row, column);
        self.cells[index]
    }

    /// The number of live cells among the eight positions around
    /// `(row, column)`, where the grid wraps around at every edge.
    pub fn live_neighbor_count(&self, row: u32, column: u32) -> (count: u8)
        ensures
            count == self@.live_neighbors(row as int, column as int),
            count <= 8,
    {
        proof {
            use_type_invariant(self);
        }
        let row_offsets: [u32; 3] = [self.height - 1, 0, 1];
        let col_offsets: [u32; 3] = [self.width - 1, 0, 1];
        let mut count: u8 = 0;
        let mut i: usize = 0;
        while i < 3
            invariant
                i <= 3,
                self@.wf(),
                forall|k: int| 0 <= k < 3 ==> row_offsets@[k] == self@.row_offset(k),
                forall|k: int| 0 <= k < 3 ==> col_offsets@[k] == self@.col_offset(k),
                count == self@.neighbor_sum(row as int, column as int, 3 * i),
            decreases 3 - i,
        {
            let mut j: usize = 0;
            while j < 3
                invariant
                    i < 3,
                    j <= 3,
                    self@.wf(),
                    forall|k: int| 0 <= k < 3 ==> row_offsets@[k] == self@.row_offset(k),
                    forall|k: int| 0 <= k < 3 ==> col_offsets@[k] == self@.col_offset(k),
                    count == self@.neighbor_sum(row as int, column as int, 3 * i + j),
                decreases 3 - j,
            {
                let delta_row: u32 = row_offsets[i];
                let delta_col: u32 = col_offsets[j];
                proof {
                    lemma_neighbor_sum_range(self@, row as int, column as int, 3 * i + j + 1);
                }
                if !(delta_row == 0 && delta_col == 0) {
                    let neighbor_row: u32 = wrap_offset(row, delta_row, self.height);
                    let neighbor_col: u32 = wrap_offset(column, delta_col, self.width);
                    let index: usize = self.get_index(neighbor_row, neighbor_col);
                    count += self.cells[index].as_count();
                }
                j += 1;
            }
            i += 1;
        }
        proof {
            lemma_neighbor_sum_total(self@, row as int, column as int);
        }
        count
    }

    /// Advances the universe by one generation. Every cell of the new
    /// generation is computed from the old one before any cell is replaced.
    pub fn tick(&mut self)
        ensures
            final(self)@ == old(self)@.step(),
            final(self)@.wf(),
    {
        proof {
            use_type_invariant(&*self);
        }
        let mut next: Vec<Cell> = Vec::with_capacity(self.cells.len());
        let mut row: u32 = 0;
        while row < self.height
            invariant
                row <= self.height,
                self@.wf(),
                next@.len() == row * self.width,
                forall|i: int|
                    0 <= i < next@.len() ==> #[trigger] next@[i] == self@.next_cell(
                        i / self@.width,
                        i % self@.width,
                    ),
            decreases self.height - row,
        {
            let mut col: u32 = 0;
            while col < self.width
                invariant
                    row < self.height,
                    col <= self.width,
                    self@.wf(),
                    next@.len() == row * self.width + col,
                    forall|i: int|
                        0 <= i < next@.len() ==> #[trigger] next@[i] == self@.next_cell(
                            i / self@.width,
                            i % self@.width,
                        ),
                decreases self.width - col,
            {
                let index: usize = self.get_index(row, col);
                let cell: Cell = self.cells[index];
                let live_neighbors: u8 = self.live_neighbor_count(row, col);
                proof {
                    lemma_index_split(row as int, col as int, self.width as int);
                }
                next.push(cell.next(live_neighbors));
                col += 1;
            }
            assert((row + 1) * self.width == row * self.width + self.width) by (nonlinear_arith);
            row += 1;
        }
        assert(next@ =~= self@.step().cells) by {
            assert(self.height * self.width == self.width * self.height) by (nonlinear_arith);
        }
        self.cells = next;
    }

    /// The universe as text: one line per row from top to bottom, and in each
    /// line one glyph per cell from left to right.
    pub fn render(&self) -> (text: String)
        ensures
            text@ == self@.text(),
            self@.wf(),
    {
        proof {
            use_type_invariant(self);
            reveal_strlit("\n");
        }
        let mut text: String = String::new();
        let mut row: u32 = 0;
        while row < self.height
            invariant
                row <= self.height,
                self@.wf(),
                "\n"@ == seq!['\n'],
                text@ == self@.lines(row as int),
            decreases self.height - row,
        {
            let ghost above: Seq<char> = text@;
            let mut col: u32 = 0;
            while col < self.width
                invariant
                    row < self.height,
                    col <= self.width,
                    self@.wf(),
                    text@ == above + Seq::new(
                        col as nat,
                        |c: int| self@.cell(row as int, c).glyph(),
                    ),
                decreases self.width - col,
            {
                let cell: Cell = self.cell(row, col);
                text.append(cell.glyph_str());
                col += 1;
            }
            text.append("\n");
            assert(text@ == self@.lines(row as int) + self@.line(row as int));
            row += 1;
        }
        text
    }
}

} // verus!
