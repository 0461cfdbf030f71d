//! Arithmetic facts about row-major indices and wrap-around coordinates.

use vstd::prelude::*;
use vstd::arithmetic::div_mod::lemma_fundamental_div_mod_converse;

verus! {

/// Where a coordinate lands after moving by `delta` on an axis of `n`
/// positions whose two ends are joined.
pub open spec fn wrap(position: int, delta: int, n: int) -> int {
    (position + delta) % n
}

/// The position reached from `position` by moving `delta` places forward on an
/// axis of `n` positions whose two ends are joined.
pub fn wrap_offset(position: u32, delta: u32, n: u32) -> (wrapped: u32)
    requires
        n > 0,
    ensures
        wrapped == wrap(position as int, delta as int, n as int),
        wrapped < n,
{
    let sum: u64 = position as u64 + delta as u64;
    (sum % (n as u64)) as u32
}

/// A row-major index of an in-range position is a valid index into the buffer.
pub proof fn lemma_index_in_bounds(row: int, col: int, width: int, height: int)
    requires
        0 <= row < height,
        0 <= col < width,
    ensures
        0 <= row * width + col < width * height,
{
    assert(0 <= row * width && row * width + width <= width * height) by (nonlinear_arith)
        requires
            0 <= row < height,
            0 < width,
    ;
}

/// A row-major index determines its row and its column.
pub proof fn lemma_index_split(row: int, col: int, width: int)
    requires
        0 <= col < width,
    ensures
        (row * width + col) / width == row,
        (row * width + col) % width == col,
{
    lemma_fundamental_div_mod_converse(row * width + col, width, row, col);
}

/// Every index into the buffer is the row-major index of an in-range position.
pub proof fn lemma_index_join(index: int, width: int, height: int)
    requires
        0 < width,
        0 <= index < width * height,
    ensures
        0 <= index / width < height,
        0 <= index % width < width,
        (index / width) * width + index % width == index,
{
    assert(0 <= index / width < height && 0 <= index % width < width && (index / width) * width
        + index % width == index) by (nonlinear_arith)
        requires
            0 < width,
            0 <= index < width * height,
    ;
}

/// Moving by zero stays in place.
pub proof fn lemma_wrap_stay(position: int, n: int)
    requires
        0 <= position < n,
    ensures
        wrap(position, 0, n) == position,
{
    lemma_fundamental_div_mod_converse(position, n, 0, position);
}

/// Moving forward by one steps to the next position, and from the last
/// position to the first.
pub proof fn lemma_wrap_forward(position: int, n: int)
    requires
        0 <= position < n,
    ensures
        wrap(position, 1, n) == if position == n - 1 {
            0
        } else {
            position + 1
        },
{
    if position == n - 1 {
        lemma_fundamental_div_mod_converse(position + 1, n, 1, 0);
    } else {
        lemma_fundamental_div_mod_converse(position + 1, n, 0, position + 1);
    }
}

/// Moving forward by `n - 1` steps to the previous position, and from the
/// first position to the last.
pub proof fn lemma_wrap_backward(position: int, n: int)
    requires
        0 <= position < n,
    ensures
        wrap(position, n - 1, n) == if position == 0 {
            n - 1
        } else {
            position - 1
        },
{
    if position == 0 {
        lemma_fundamental_div_mod_converse(n - 1, n, 0, n - 1);
    } else {
        lemma_fundamental_div_mod_converse(position + (n - 1), n, 1, position - 1);
    }
}

} // verus!
