use game_of_life::arith::wrap_offset;
use game_of_life::cell::{Cell, ALIVE_GLYPH, DEAD_GLYPH};

#[test]
fn as_count_is_zero_or_one() {
    assert_eq!(Cell::Dead.as_count(), 0);
    assert_eq!(Cell::Alive.as_count(), 1);
}

#[test]
fn cells_compare_by_state() {
    assert_eq!(Cell::Dead, Cell::Dead);
    assert_eq!(Cell::Alive, Cell::Alive);
    assert_ne!(Cell::Dead, Cell::Alive);
}

#[test]
fn live_cell_dies_of_underpopulation() {
    assert_eq!(Cell::Alive.next(0), Cell::Dead);
    assert_eq!(Cell::Alive.next(1), Cell::Dead);
}

#[test]
fn live_cell_survives_with_two_or_three() {
    assert_eq!(Cell::Alive.next(2), Cell::Alive);
    assert_eq!(Cell::Alive.next(3), Cell::Alive);
}

#[test]
fn live_cell_dies_of_overpopulation() {
    for live_neighbors in 4..=8u8 {
        assert_eq!(Cell::Alive.next(live_neighbors), Cell::Dead);
    }
}

#[test]
fn dead_cell_is_born_with_exactly_three() {
    assert_eq!(Cell::Dead.next(3), Cell::Alive);
}

#[test]
fn dead_cell_stays_dead_otherwise() {
    for live_neighbors in [0u8, 1, 2, 4, 5, 6, 7, 8] {
        assert_eq!(Cell::Dead.next(live_neighbors), Cell::Dead);
    }
}

#[test]
fn glyphs_are_hollow_and_filled_squares() {
    assert_eq!(DEAD_GLYPH, '◻');
    assert_eq!(ALIVE_GLYPH, '◼');
    assert_eq!(Cell::Dead.glyph(), '◻');
    assert_eq!(Cell::Alive.glyph(), '◼');
    assert_eq!(Cell::Dead.glyph_str(), "◻");
    assert_eq!(Cell::Alive.glyph_str(), "◼");
}

#[test]
fn wrap_offset_steps_and_wraps() {
    assert_eq!(wrap_offset(0, 0, 5), 0);
    assert_eq!(wrap_offset(3, 0, 5), 3);
    assert_eq!(wrap_offset(3, 1, 5), 4);
    assert_eq!(wrap_offset(4, 1, 5), 0);
    assert_eq!(wrap_offset(0, 4, 5), 4);
    assert_eq!(wrap_offset(1, 4, 5), 0);
    assert_eq!(wrap_offset(2, 4, 5), 1);
    assert_eq!(wrap_offset(0, 0, 1), 0);
    assert_eq!(wrap_offset(0, 1, 1), 0);
}

#[test]
fn wrap_offset_does_not_overflow() {
    let n = u32::MAX;
    assert_eq!(wrap_offset(n - 1, n - 1, n), n - 2);
    assert_eq!(wrap_offset(n - 1, 1, n), 0);
    assert_eq!(wrap_offset(0, n - 1, n), n - 1);
    assert_eq!(wrap_offset(u32::MAX, u32::MAX, 7), ((u32::MAX as u64 * 2) % 7) as u32);
}
