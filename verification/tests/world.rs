use river_crossing::world::{
    bank_of, dock_for, is_adjacent, is_dock_position, is_walkable, Bank, Direction, GridPos,
    GRID_COLS, GRID_ROWS,
};

#[test]
fn river_band_is_never_walkable() {
    for col in 4..=7 {
        for row in 0..GRID_ROWS {
            assert!(!is_walkable(GridPos::new(col, row)));
        }
    }
}

#[test]
fn every_other_in_bounds_cell_is_walkable() {
    for col in 0..GRID_COLS {
        for row in 0..GRID_ROWS {
            let expected = !(4..=7).contains(&col);
            assert_eq!(is_walkable(GridPos::new(col, row)), expected);
        }
    }
}

#[test]
fn out_of_bounds_cells_are_not_walkable() {
    assert!(!is_walkable(GridPos::new(-1, 0)));
    assert!(!is_walkable(GridPos::new(0, -1)));
    assert!(!is_walkable(GridPos::new(12, 0)));
    assert!(!is_walkable(GridPos::new(0, 8)));
    assert!(!is_walkable(GridPos::new(100, 100)));
    assert!(!is_walkable(GridPos::new(i32::MIN + 1, i32::MIN + 1)));
}

#[test]
fn bank_of_classifies_columns() {
    assert_eq!(bank_of(GridPos::new(0, 0)), Some(Bank::Left));
    assert_eq!(bank_of(GridPos::new(3, 7)), Some(Bank::Left));
    assert_eq!(bank_of(GridPos::new(4, 4)), None);
    assert_eq!(bank_of(GridPos::new(7, 0)), None);
    assert_eq!(bank_of(GridPos::new(8, 2)), Some(Bank::Right));
    assert_eq!(bank_of(GridPos::new(11, 5)), Some(Bank::Right));
    assert_eq!(bank_of(GridPos::new(-1, 4)), None);
    assert_eq!(bank_of(GridPos::new(12, 4)), None);
}

#[test]
fn adjacency_is_manhattan_distance_at_most_one() {
    let p = GridPos::new(5, 5);
    assert!(is_adjacent(p, p));
    assert!(is_adjacent(p, GridPos::new(4, 5)));
    assert!(is_adjacent(p, GridPos::new(6, 5)));
    assert!(is_adjacent(p, GridPos::new(5, 4)));
    assert!(is_adjacent(p, GridPos::new(5, 6)));
    assert!(!is_adjacent(p, GridPos::new(6, 6)));
    assert!(!is_adjacent(p, GridPos::new(3, 5)));
    assert!(!is_adjacent(p, GridPos::new(5, 7)));
}

#[test]
fn docks_sit_beside_the_river_on_row_four() {
    assert_eq!(dock_for(Bank::Left), GridPos::new(3, 4));
    assert_eq!(dock_for(Bank::Right), GridPos::new(8, 4));
    assert!(is_dock_position(GridPos::new(3, 4), Bank::Left));
    assert!(is_dock_position(GridPos::new(8, 4), Bank::Right));
    assert!(!is_dock_position(GridPos::new(3, 4), Bank::Right));
    assert!(!is_dock_position(GridPos::new(3, 5), Bank::Left));
}

#[test]
fn step_applies_unit_deltas() {
    let p = GridPos::new(2, 4);
    assert_eq!(p.step(Direction::Up), GridPos::new(2, 3));
    assert_eq!(p.step(Direction::Down), GridPos::new(2, 5));
    assert_eq!(p.step(Direction::Left), GridPos::new(1, 4));
    assert_eq!(p.step(Direction::Right), GridPos::new(3, 4));
}

#[test]
fn direction_deltas_are_units() {
    assert_eq!(Direction::Up.delta(), (0, -1));
    assert_eq!(Direction::Down.delta(), (0, 1));
    assert_eq!(Direction::Left.delta(), (-1, 0));
    assert_eq!(Direction::Right.delta(), (1, 0));
}

#[test]
fn opposite_swaps_banks() {
    assert_eq!(Bank::Left.opposite(), Bank::Right);
    assert_eq!(Bank::Right.opposite(), Bank::Left);
    assert_eq!(Bank::Left.opposite().opposite(), Bank::Left);
}
