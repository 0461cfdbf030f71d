use game_of_life::cell::Cell;
use game_of_life::universe::{default_cell, GridError, Universe, DEFAULT_HEIGHT, DEFAULT_WIDTH};

fn build_default(width: u32, height: u32) -> Universe {
    match Universe::new(width, height) {
        Ok(universe) => universe,
        Err(_) => panic!("valid dimensions were rejected"),
    }
}

#[test]
fn new_rejects_zero_width() {
    assert!(matches!(Universe::new(0, 5), Err(GridError::InvalidDimensions)));
}

#[test]
fn new_rejects_zero_height() {
    assert!(matches!(Universe::new(5, 0), Err(GridError::InvalidDimensions)));
}

#[test]
fn new_rejects_zero_by_zero() {
    assert!(matches!(Universe::new(0, 0), Err(GridError::InvalidDimensions)));
}

#[test]
fn with_pattern_rejects_zero_dimensions() {
    assert!(matches!(
        Universe::with_pattern(0, 3, |_| Cell::Alive),
        Err(GridError::InvalidDimensions)
    ));
    assert!(matches!(
        Universe::with_pattern(3, 0, |_| Cell::Alive),
        Err(GridError::InvalidDimensions)
    ));
}

#[test]
fn new_accepts_one_by_one() {
    let universe = build_default(1, 1);
    assert_eq!(universe.width(), 1);
    assert_eq!(universe.height(), 1);
    assert_eq!(universe.cell(0, 0), Cell::Alive);
}

#[test]
fn new_uses_default_pattern() {
    let universe = build_default(8, 4);
    assert_eq!(universe.width(), 8);
    assert_eq!(universe.height(), 4);
    for row in 0..4u32 {
        for column in 0..8u32 {
            let index = row * 8 + column;
            let expected = if index % 2 == 0 || index % 7 == 0 { Cell::Alive } else { Cell::Dead };
            assert_eq!(universe.cell(row, column), expected);
        }
    }
}

#[test]
fn new_default_pattern_spot_values() {
    let universe = build_default(64, 64);
    assert_eq!(universe.width(), 64);
    assert_eq!(universe.height(), 64);
    // index 0, 1, 7, 9, 21, 64, 65, 77, 4095
    assert_eq!(universe.cell(0, 0), Cell::Alive);
    assert_eq!(universe.cell(0, 1), Cell::Dead);
    assert_eq!(universe.cell(0, 7), Cell::Alive);
    assert_eq!(universe.cell(0, 9), Cell::Dead);
    assert_eq!(universe.cell(0, 21), Cell::Alive);
    assert_eq!(universe.cell(1, 0), Cell::Alive);
    assert_eq!(universe.cell(1, 1), Cell::Dead);
    assert_eq!(universe.cell(1, 13), Cell::Alive);
    assert_eq!(universe.cell(63, 63), Cell::Alive);
    assert_eq!(universe.cell(63, 62), Cell::Alive);
    assert_eq!(universe.cell(63, 60), Cell::Alive);
    assert_eq!(universe.cell(63, 58), Cell::Alive);
    assert_eq!(universe.cell(63, 61), Cell::Dead);
}

#[test]
fn default_cell_follows_the_rule() {
    assert_eq!(default_cell(0), Cell::Alive);
    assert_eq!(default_cell(1), Cell::Dead);
    assert_eq!(default_cell(2), Cell::Alive);
    assert_eq!(default_cell(3), Cell::Dead);
    assert_eq!(default_cell(5), Cell::Dead);
    assert_eq!(default_cell(7), Cell::Alive);
    assert_eq!(default_cell(9), Cell::Dead);
    assert_eq!(default_cell(14), Cell::Alive);
    assert_eq!(default_cell(21), Cell::Alive);
    assert_eq!(default_cell(35), Cell::Alive);
    assert_eq!(default_cell(37), Cell::Dead);
    for index in 0..500usize {
        let expected = if index % 2 == 0 || index % 7 == 0 { Cell::Alive } else { Cell::Dead };
        assert_eq!(default_cell(index), expected);
    }
}

#[test]
fn with_pattern_places_cells_by_linear_index() {
    let universe = match Universe::with_pattern(3, 2, |index| {
        if index == 1 || index == 3 { Cell::Alive } else { Cell::Dead }
    }) {
        Ok(universe) => universe,
        Err(_) => panic!("valid dimensions were rejected"),
    };
    assert_eq!(universe.width(), 3);
    assert_eq!(universe.height(), 2);
    assert_eq!(universe.cell(0, 0), Cell::Dead);
    assert_eq!(universe.cell(0, 1), Cell::Alive);
    assert_eq!(universe.cell(0, 2), Cell::Dead);
    assert_eq!(universe.cell(1, 0), Cell::Alive);
    assert_eq!(universe.cell(1, 1), Cell::Dead);
    assert_eq!(universe.cell(1, 2), Cell::Dead);
}

#[test]
fn with_pattern_asks_for_every_index_once_in_order() {
    let asked = std::cell::RefCell::new(Vec::new());
    let result = Universe::with_pattern(4, 3, |index| {
        asked.borrow_mut().push(index);
        Cell::Dead
    });
    assert!(result.is_ok());
    let expected: Vec<usize> = (0..12).collect();
    assert_eq!(*asked.borrow(), expected);
}

#[test]
fn get_index_is_row_major() {
    let universe = build_default(5, 3);
    assert_eq!(universe.get_index(0, 0), 0);
    assert_eq!(universe.get_index(0, 4), 4);
    assert_eq!(universe.get_index(1, 0), 5);
    assert_eq!(universe.get_index(1, 2), 7);
    assert_eq!(universe.get_index(2, 4), 14);
}

#[test]
fn dimensions_hold_after_new_and_after_every_tick() {
    let mut universe = build_default(7, 5);
    for _ in 0..10 {
        assert_eq!(universe.width(), 7);
        assert_eq!(universe.height(), 5);
        assert_eq!(universe.get_index(4, 6), 34);
        assert_eq!(universe.render().chars().filter(|c| *c != '\n').count(), 35);
        universe.tick();
    }
    assert_eq!(universe.width(), 7);
    assert_eq!(universe.height(), 5);
    assert_eq!(universe.render().chars().filter(|c| *c != '\n').count(), 35);
}

#[test]
fn default_universe_is_sixty_four_by_sixty_four() {
    assert_eq!(DEFAULT_WIDTH, 64);
    assert_eq!(DEFAULT_HEIGHT, 64);
    let universe = Universe::default();
    assert_eq!(universe.width(), 64);
    assert_eq!(universe.height(), 64);
    for row in 0..64u32 {
        for column in 0..64u32 {
            let index = row * 64 + column;
            let expected = if index % 2 == 0 || index % 7 == 0 { Cell::Alive } else { Cell::Dead };
            assert_eq!(universe.cell(row, column), expected);
        }
    }
    assert_eq!(universe.render(), build_default(64, 64).render());
}
