//! Where the cells of the board lie: on the border of a square grid, once round.

use crate::cell::CELLS_COUNT;
use vstd::prelude::*;

verus! {

/// The number of cells along one side of the board, corners included.
pub const SIDE_LENGTH: usize = 11;

/// A side of the board. Each side starts with a corner and ends before the next.
#[derive(Debug, Clone, Copy, PartialEq, Eq, Structural)]
pub enum RowSide {
    Top,
    Right,
    Bottom,
    Left,
}

impl RowSide {
    /// The side on which the cell `index` lies.
    pub open spec fn of(index: int) -> RowSide {
        if index < 10 {
            RowSide::Top
        } else if index < 20 {
            RowSide::Right
        } else if index < 30 {
            RowSide::Bottom
        } else {
            RowSide::Left
        }
    }

    /// The side on which the cell `index` lies.
    pub fn from_index(index: usize) -> (side: RowSide)
        requires
            index < CELLS_COUNT,
        ensures
            side == RowSide::of(index as int),
    {
        if index < 10 {
            RowSide::Top
        } else if index < 20 {
            RowSide::Right
        } else if index < 30 {
            RowSide::Bottom
        } else {
            RowSide::Left
        }
    }
}

/// The column and the row of the cell `index` on the grid, both counted
/// from 1: the board goes from the top left corner along the top, down the
/// right side, back along the bottom and up the left side.
pub open spec fn grid_position(index: int) -> (int, int) {
    match RowSide::of(index) {
        RowSide::Top => (index + 1, 1),
        RowSide::Right => (11, index - 9),
        RowSide::Bottom => (31 - index, 11),
        RowSide::Left => (1, 41 - index),
    }
}

/// Whether the cell in column `column` and row `row` lies on the border of the grid.
pub open spec fn on_border(column: int, row: int) -> bool {
    &&& 1 <= column <= SIDE_LENGTH
    &&& 1 <= row <= SIDE_LENGTH
    &&& column == 1 || column == SIDE_LENGTH || row == 1 || row == SIDE_LENGTH
}

/// The column and the row of the cell `index` on the grid, both counted from 1.
pub fn cell_position(index: usize) -> (position: (usize, usize))
    requires
        index < CELLS_COUNT,
    ensures
        (position.0 as int, position.1 as int) == grid_position(index as int),
        on_border(position.0 as int, position.1 as int),
{
    match RowSide::from_index(index) {
        RowSide::Top => (index + 1, 1),
        RowSide::Right => (11, index - 9),
        RowSide::Bottom => (31 - index, 11),
        RowSide::Left => (1, 41 - index),
    }
}

/// The cell that lies in column `column` and row `row` of the grid, where one does.
pub fn cell_at(column: usize, row: usize) -> (index: Option<usize>)
    ensures
        match index {
            Some(index) => index < CELLS_COUNT && grid_position(index as int) == (
                column as int,
                row as int,
            ),
            None => !on_border(column as int, row as int),
        },
{
    if column < 1 || column > SIDE_LENGTH || row < 1 || row > SIDE_LENGTH {
        None
    } else if row == 1 && column < SIDE_LENGTH {
        Some(column - 1)
    } else if column == SIDE_LENGTH && row < SIDE_LENGTH {
        Some(row + 9)
    } else if row == SIDE_LENGTH && column > 1 {
        Some(31 - column)
    } else if column == 1 {
        Some(41 - row)
    } else {
        None
    }
}

/// The board goes once round the border: no two cells share a place, and
/// every place on the border is that of a cell.
pub proof fn lemma_board_goes_round(first: int, second: int, column: int, row: int)
    requires
        0 <= first < CELLS_COUNT,
        0 <= second < CELLS_COUNT,
    ensures
        first != second ==> grid_position(first) != grid_position(second),
        on_border(grid_position(first).0, grid_position(first).1),
        on_border(column, row) ==> exists|index: int|
            0 <= index < CELLS_COUNT && #[trigger] grid_position(index) == (column, row),
{
    if on_border(column, row) {
        let index = if row == 1 && column < SIDE_LENGTH {
            column - 1
        } else if column == SIDE_LENGTH && row < SIDE_LENGTH {
            row + 9
        } else if row == SIDE_LENGTH && column > 1 {
            31 - column
        } else {
            41 - row
        };
        assert(grid_position(index) == (column, row));
    }
}

} // verus!
