//! The state of a single cell and the rule that evolves it.

use vstd::prelude::*;

verus! {

/// The state of one cell of the grid.
#[derive(Clone, Copy, Debug, PartialEq, Eq, Structural)]
pub enum Cell {
    Dead,
    Alive,
}

/// The glyph that stands for a dead cell in rendered text: a hollow square.
pub const DEAD_GLYPH: char = '\u{25FB}';

/// The glyph that stands for a live cell in rendered text: a filled square.
pub const ALIVE_GLYPH: char = '\u{25FC}';

/// The state a cell takes in the next generation, given its current state
/// and how many of its neighbors are alive.
pub open spec fn transition(cell: Cell, live_neighbors: int) -> Cell {
    match cell {
        Cell::Alive => if live_neighbors == 2 || live_neighbors == 3 {
            Cell::Alive
        } else {
            Cell::Dead
        },
        Cell::Dead => if live_neighbors == 3 {
            Cell::Alive
        } else {
            Cell::Dead
        },
    }
}

/// The rule case by case: a live cell dies with fewer than two live
/// neighbors, lives on with two or three, and dies with more than three; a
/// dead cell comes alive with exactly three; every other cell stays as it is.
pub proof fn lemma_transition_cases(cell: Cell, live_neighbors: int)
    ensures
        cell == Cell::Alive && live_neighbors < 2 ==> transition(cell, live_neighbors)
            == Cell::Dead,
        cell == Cell::Alive && (live_neighbors == 2 || live_neighbors == 3) ==> transition(
            cell,
            live_neighbors,
        ) == Cell::Alive,
        cell == Cell::Alive && live_neighbors > 3 ==> transition(cell, live_neighbors)
            == Cell::Dead,
        cell == Cell::Dead && live_neighbors == 3 ==> transition(cell, live_neighbors)
            == Cell::Alive,
        cell == Cell::Dead && live_neighbors != 3 ==> transition(cell, live_neighbors) == cell,
{
}

impl Cell {
    /// What this cell adds to a neighbor count: 0 when dead, 1 when alive.
    pub open spec fn spec_as_count(self) -> u8 {
        match self {
            Cell::Dead => 0u8,
            Cell::Alive => 1u8,
        }
    }

    /// What this cell adds to a neighbor count: 0 when dead, 1 when alive.
    #[verifier::when_used_as_spec(spec_as_count)]
    pub fn as_count(self) -> (n: u8)
        ensures
            n == self.spec_as_count(),
    {
        match self {
            Cell::Dead => 0,
            Cell::Alive => 1,
        }
    }

    /// The state of this cell in the next generation.
    pub fn next(self, live_neighbors: u8) -> (next: Cell)
        ensures
            next == transition(self, live_neighbors as int),
    {
        match self {
            Cell::Alive => if live_neighbors == 2 || live_neighbors == 3 {
                Cell::Alive
            } else {
                Cell::Dead
            },
            Cell::Dead => if live_neighbors == 3 {
                Cell::Alive
            } else {
                Cell::Dead
            },
        }
    }

    /// The glyph that stands for this cell in rendered text.
    pub open spec fn spec_glyph(self) -> char {
        match self {
            Cell::Dead => DEAD_GLYPH,
            Cell::Alive => ALIVE_GLYPH,
        }
    }

    /// The glyph that stands for this cell in rendered text.
    #[verifier::when_used_as_spec(spec_glyph)]
    pub fn glyph(self) -> (glyph: char)
        ensures
            glyph == self.spec_glyph(),
    {
        match self {
            Cell::Dead => DEAD_GLYPH,
            Cell::Alive => ALIVE_GLYPH,
        }
    }

    /// The glyph of this cell as a piece of text.
    pub fn glyph_str(self) -> (text: &'static str)
        ensures
            text@ == seq![self.glyph()],
    {
        proof {
            reveal_strlit("\u{25FB}");
            reveal_strlit("\u{25FC}");
        }
        match self {
            Cell::Dead => "\u{25FB}",
            Cell::Alive => "\u{25FC}",
        }
    }
}

} // verus!
