//! Grid geometry: stateless queries over the fixed 12x8 layout with a left
//! bank (columns 0-3), a river band (columns 4-7) and a right bank
//! (columns 8-11). Row 4 holds the single dock cell of each bank.

use vstd::prelude::*;

verus! {

pub const GRID_COLS: i32 = 12;
pub const GRID_ROWS: i32 = 8;

pub const LEFT_BANK_COL_MIN: i32 = 0;
pub const LEFT_BANK_COL_MAX: i32 = 3;
pub const RIVER_COL_MIN: i32 = 4;
pub const RIVER_COL_MAX: i32 = 7;
pub const RIGHT_BANK_COL_MIN: i32 = 8;
pub const RIGHT_BANK_COL_MAX: i32 = 11;

pub const DOCK_ROW: i32 = 4;

/// A position on the game grid.
#[derive(Debug, Clone, Copy, PartialEq, Eq, Hash, Structural)]
pub struct GridPos {
    pub col: i32,
    pub row: i32,
}

/// Which side of the river.
#[derive(Debug, Clone, Copy, PartialEq, Eq, Hash, Structural)]
pub enum Bank {
    Left,
    Right,
}

/// Movement directions on the grid. `Up` decreases the row, `Down`
/// increases it; `Left` decreases the column, `Right` increases it.
#[derive(Debug, Clone, Copy, PartialEq, Eq, Structural)]
pub enum Direction {
    Up,
    Down,
    Left,
    Right,
}

impl GridPos {
    pub fn new(col: i32, row: i32) -> (r: GridPos)
        ensures
            r == (GridPos { col, row }),
    {
        GridPos { col, row }
    }

    /// The position one step away in the given direction. The column and
    /// row deltas are each -1, 0 or 1, so the result is exact whenever the
    /// coordinates stay inside the `i32` range.
    pub open spec fn step_spec(self, dir: Direction) -> GridPos {
        GridPos {
            col: (self.col + dir.delta_spec().0) as i32,
            row: (self.row + dir.delta_spec().1) as i32,
        }
    }

    /// Apply a direction to get a new position.
    pub fn step(self, dir: Direction) -> (r: GridPos)
        requires
            i32::MIN < self.col < i32::MAX,
            i32::MIN < self.row < i32::MAX,
        ensures
            r == self.step_spec(dir),
            r.col == self.col + dir.delta_spec().0,
            r.row == self.row + dir.delta_spec().1,
    {
        let (dc, dr) = dir.delta();
        GridPos { col: self.col + dc, row: self.row + dr }
    }
}

impl Bank {
    pub open spec fn opposite_spec(self) -> Bank {
        match self {
            Bank::Left => Bank::Right,
            Bank::Right => Bank::Left,
        }
    }

    pub fn opposite(self) -> (r: Bank)
        ensures
            r == self.opposite_spec(),
    {
        match self {
            Bank::Left => Bank::Right,
            Bank::Right => Bank::Left,
        }
    }
}

impl Direction {
    /// The unit (column delta, row delta) of a direction.
    pub open spec fn delta_spec(self) -> (int, int) {
        match self {
            Direction::Up => (0int, -1int),
            Direction::Down => (0int, 1int),
            Direction::Left => (-1int, 0int),
            Direction::Right => (1int, 0int),
        }
    }

    pub fn delta(self) -> (r: (i32, i32))
        ensures
            r.0 == self.delta_spec().0,
            r.1 == self.delta_spec().1,
    {
        match self {
            Direction::Up => (0, -1),
            Direction::Down => (0, 1),
            Direction::Left => (-1, 0),
            Direction::Right => (1, 0),
        }
    }
}

/// A cell is walkable exactly when it lies inside the grid and outside the
/// river column band, stated over unbounded column and row numbers.
pub open spec fn walkable_cell(col: int, row: int) -> bool {
    &&& 0 <= row < GRID_ROWS
    &&& 0 <= col < GRID_COLS
    &&& !(RIVER_COL_MIN <= col <= RIVER_COL_MAX)
}

pub open spec fn is_walkable_spec(pos: GridPos) -> bool {
    walkable_cell(pos.col as int, pos.row as int)
}

/// Check if a grid position is walkable land.
pub fn is_walkable(pos: GridPos) -> (r: bool)
    ensures
        r == is_walkable_spec(pos),
{
    pos.row >= 0
        && pos.row < GRID_ROWS
        && pos.col >= 0
        && pos.col < GRID_COLS
        && !(pos.col >= RIVER_COL_MIN && pos.col <= RIVER_COL_MAX)
}

/// The bank a column range falls in: left bank, right bank, or none for
/// the river band and out-of-range columns.
pub open spec fn bank_of_spec(pos: GridPos) -> Option<Bank> {
    if LEFT_BANK_COL_MIN <= pos.col <= LEFT_BANK_COL_MAX {
        Some(Bank::Left)
    } else if RIGHT_BANK_COL_MIN <= pos.col <= RIGHT_BANK_COL_MAX {
        Some(Bank::Right)
    } else {
        None
    }
}

/// Determine which bank a position is on, if any.
pub fn bank_of(pos: GridPos) -> (r: Option<Bank>)
    ensures
        r == bank_of_spec(pos),
{
    if pos.col >= LEFT_BANK_COL_MIN && pos.col <= LEFT_BANK_COL_MAX {
        Some(Bank::Left)
    } else if pos.col >= RIGHT_BANK_COL_MIN && pos.col <= RIGHT_BANK_COL_MAX {
        Some(Bank::Right)
    } else {
        None
    }
}

/// Two positions are adjacent when their Manhattan distance is at most 1;
/// a position is adjacent to itself.
pub open spec fn is_adjacent_spec(a: GridPos, b: GridPos) -> bool {
    vstd::math::abs(a.col - b.col) + vstd::math::abs(a.row - b.row) <= 1
}

/// Check if two positions are adjacent (Manhattan distance <= 1).
pub fn is_adjacent(a: GridPos, b: GridPos) -> (r: bool)
    ensures
        r == is_adjacent_spec(a, b),
{
    let dc: i64 = a.col as i64 - b.col as i64;
    let dr: i64 = a.row as i64 - b.row as i64;
    let adc: i64 = if dc < 0 { -dc } else { dc };
    let adr: i64 = if dr < 0 { -dr } else { dr };
    adc + adr <= 1
}

/// The single dock cell of a bank: the bank-side column next to the river,
/// on the dock row.
pub open spec fn dock_for_spec(bank: Bank) -> GridPos {
    match bank {
        Bank::Left => GridPos { col: LEFT_BANK_COL_MAX, row: DOCK_ROW },
        Bank::Right => GridPos { col: RIGHT_BANK_COL_MIN, row: DOCK_ROW },
    }
}

/// Get the dock position for a bank.
pub fn dock_for(bank: Bank) -> (r: GridPos)
    ensures
        r == dock_for_spec(bank),
{
    match bank {
        Bank::Left => GridPos { col: LEFT_BANK_COL_MAX, row: DOCK_ROW },
        Bank::Right => GridPos { col: RIGHT_BANK_COL_MIN, row: DOCK_ROW },
    }
}

/// Check if a position is the dock for the given bank.
pub fn is_dock_position(pos: GridPos, bank: Bank) -> (r: bool)
    ensures
        r == (pos == dock_for_spec(bank)),
{
    let dock = dock_for(bank);
    pos == dock
}

} // verus!
