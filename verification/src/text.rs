//! The shape of the rendered text of a grid.

use vstd::prelude::*;
use crate::grid::Grid;

verus! {

/// The number of line breaks in a text.
pub open spec fn line_breaks(text: Seq<char>) -> nat
    decreases text.len(),
{
    if text.len() == 0 {
        0
    } else {
        line_breaks(text.drop_last()) + if text.last() == '\n' {
            1nat
        } else {
            0nat
        }
    }
}

/// The line breaks of a text made of two parts are those of its parts.
pub proof fn lemma_line_breaks_concat(first: Seq<char>, second: Seq<char>)
    ensures
        line_breaks(first + second) == line_breaks(first) + line_breaks(second),
    decreases second.len(),
{
    if second.len() == 0 {
        assert(first + second =~= first);
    } else {
        assert((first + second).drop_last() =~= first + second.drop_last());
        lemma_line_breaks_concat(first, second.drop_last());
    }
}

/// A text without a line break at any place has no line break.
pub proof fn lemma_no_line_breaks(text: Seq<char>)
    requires
        forall|i: int| 0 <= i < text.len() ==> text[i] != '\n',
    ensures
        line_breaks(text) == 0,
    decreases text.len(),
{
    if text.len() > 0 {
        lemma_no_line_breaks(text.drop_last());
    }
}

/// The text of a row is one glyph per cell of the row, from left to right,
/// and then the only line break of the line.
pub proof fn lemma_line_shape(grid: Grid, row: int)
    requires
        grid.width >= 0,
    ensures
        grid.line(row).len() == grid.width + 1,
        forall|col: int|
            0 <= col < grid.width ==> #[trigger] grid.line(row)[col] == grid.cell(row, col).glyph(),
        grid.line(row)[grid.width] == '\n',
        line_breaks(grid.line(row)) == 1,
{
    let glyphs: Seq<char> = Seq::new(grid.width as nat, |col: int| grid.cell(row, col).glyph());
    assert(grid.line(row).drop_last() =~= glyphs);
    lemma_no_line_breaks(glyphs);
}

/// The text of the first `n` rows has `n` lines of `width + 1` characters.
pub proof fn lemma_lines_shape(grid: Grid, n: int)
    requires
        grid.width >= 0,
        n >= 0,
    ensures
        grid.lines(n).len() == n * (grid.width + 1),
        line_breaks(grid.lines(n)) == n,
    decreases n,
{
    if n > 0 {
        lemma_lines_shape(grid, n - 1);
        lemma_line_shape(grid, n - 1);
        lemma_line_breaks_concat(grid.lines(n - 1), grid.line(n - 1));
        assert(n * (grid.width + 1) == (n - 1) * (grid.width + 1) + (grid.width + 1))
            by (nonlinear_arith);
    } else {
        assert(n * (grid.width + 1) == 0) by (nonlinear_arith)
            requires
                n == 0,
        ;
    }
}

/// In the text of the first `n` rows, the line of each row stands at the
/// place that the rows before it leave.
pub proof fn lemma_lines_hold_line(grid: Grid, n: int, row: int)
    requires
        grid.width >= 0,
        0 <= row < n,
    ensures
        0 <= row * (grid.width + 1),
        (row + 1) * (grid.width + 1) <= grid.lines(n).len(),
        grid.lines(n).subrange(row * (grid.width + 1), (row + 1) * (grid.width + 1)) == grid.line(
            row,
        ),
    decreases n,
{
    let stride: int = grid.width + 1;
    lemma_lines_shape(grid, n - 1);
    lemma_lines_shape(grid, n);
    lemma_line_shape(grid, n - 1);
    assert((row + 1) * stride == row * stride + stride) by (nonlinear_arith);
    assert(n * stride == (n - 1) * stride + stride) by (nonlinear_arith);
    assert(0 <= row * stride && (row + 1) * stride <= (n - 1) * stride + stride)
        by (nonlinear_arith)
        requires
            0 <= row < n,
            stride >= 1,
    ;
    if row == n - 1 {
        assert(grid.lines(n).subrange(row * stride, (row + 1) * stride) =~= grid.line(row));
    } else {
        lemma_lines_hold_line(grid, n - 1, row);
        assert(grid.lines(n).subrange(row * stride, (row + 1) * stride) =~= grid.lines(
            n - 1,
        ).subrange(row * stride, (row + 1) * stride));
    }
}

/// The rendered text has as many lines as the grid has rows, and each line
/// is as many glyphs as the grid has columns and then a line break.
pub proof fn lemma_text_shape(grid: Grid)
    requires
        grid.wf(),
    ensures
        grid.text().len() == grid.height * (grid.width + 1),
        line_breaks(grid.text()) == grid.height,
        forall|row: int|
            0 <= row < grid.height ==> #[trigger] grid.line(row) == grid.text().subrange(
                row * (grid.width + 1),
                (row + 1) * (grid.width + 1),
            ),
{
    lemma_lines_shape(grid, grid.height);
    assert forall|row: int| 0 <= row < grid.height implies #[trigger] grid.line(row)
        == grid.text().subrange(row * (grid.width + 1), (row + 1) * (grid.width + 1)) by {
        lemma_lines_hold_line(grid, grid.height, row);
    }
}

/// The character of the rendered text that stands for position `(row, col)`
/// is the glyph of the cell there, and each row is closed by a line break.
pub proof fn lemma_text_char(grid: Grid, row: int, col: int)
    requires
        grid.wf(),
        0 <= row < grid.height,
        0 <= col <= grid.width,
    ensures
        0 <= row * (grid.width + 1) + col < grid.text().len(),
        grid.text()[row * (grid.width + 1) + col] == if col == grid.width {
            '\n'
        } else {
            grid.cell(row, col).glyph()
        },
{
    let start: int = row * (grid.width + 1);
    let end: int = (row + 1) * (grid.width + 1);
    lemma_lines_hold_line(grid, grid.height, row);
    lemma_line_shape(grid, row);
    assert(end == start + grid.width + 1) by (nonlinear_arith)
        requires
            start == row * (grid.width + 1),
            end == (row + 1) * (grid.width + 1),
    ;
    assert(grid.text().subrange(start, end)[col] == grid.text()[start + col]);
    if col < grid.width {
        assert(grid.line(row)[col] == grid.cell(row, col).glyph());
    }
}

} // verus!
