//! The faces of a die, as dots on a grid.

use vstd::prelude::*;

verus! {

/// The number of sides of a die.
pub const DICE_SIDES: usize = 6;

/// The number of columns of the grid on which the dots of the face
/// `face` lie: the face with one dot has a single cell.
pub open spec fn face_columns(face: int) -> int {
    if face == 2 || face == 4 || face == 6 {
        2
    } else if face == 3 || face == 5 {
        3
    } else {
        1
    }
}

/// The number of rows of the grid on which the dots of the face `face` lie.
pub open spec fn face_rows(face: int) -> int {
    if face == 1 {
        1
    } else if face == 2 || face == 4 {
        2
    } else {
        3
    }
}

/// The column and the row of the dot `dot` of the face `face`, both counted from 1.
pub open spec fn dot_position(face: int, dot: int) -> (int, int) {
    if face == 1 {
        (1, 1)
    } else if face == 2 {
        if dot == 1 {
            (2, 1)
        } else {
            (1, 2)
        }
    } else if face == 3 {
        (4 - dot, dot)
    } else if face == 5 {
        if dot == 1 {
            (1, 1)
        } else if dot == 2 {
            (3, 1)
        } else if dot == 3 {
            (2, 2)
        } else if dot == 4 {
            (1, 3)
        } else {
            (3, 3)
        }
    } else {
        // The faces 4 and 6 fill their two columns row by row.
        (2 - dot % 2, (dot + 1) / 2)
    }
}

/// The number of columns of the grid on which the dots of the face `face` lie.
pub fn dice_columns(face: usize) -> (columns: usize)
    requires
        1 <= face <= DICE_SIDES,
    ensures
        columns == face_columns(face as int),
{
    match face {
        2 | 4 | 6 => 2,
        3 | 5 => 3,
        _ => 1,
    }
}

/// The column and the row of the dot `dot` of the face `face`, both counted from 1.
pub fn dice_dot(face: usize, dot: usize) -> (position: (usize, usize))
    requires
        1 <= face <= DICE_SIDES,
        1 <= dot <= face,
    ensures
        (position.0 as int, position.1 as int) == dot_position(face as int, dot as int),
        1 <= position.0 <= face_columns(face as int),
        1 <= position.1 <= face_rows(face as int),
{
    match face {
        1 => (1, 1),
        2 => match dot {
            1 => (2, 1),
            _ => (1, 2),
        },
        3 => match dot {
            1 => (3, 1),
            2 => (2, 2),
            _ => (1, 3),
        },
        4 => match dot {
            1 => (1, 1),
            2 => (2, 1),
            3 => (1, 2),
            _ => (2, 2),
        },
        5 => match dot {
            1 => (1, 1),
            2 => (3, 1),
            3 => (2, 2),
            4 => (1, 3),
            _ => (3, 3),
        },
        _ => match dot {
            1 => (1, 1),
            2 => (2, 1),
            3 => (1, 2),
            4 => (2, 2),
            5 => (1, 3),
            _ => (2, 3),
        },
    }
}

/// No two dots of a face lie on one cell of its grid.
pub proof fn lemma_dots_lie_apart(face: int, first: int, second: int)
    requires
        1 <= face <= DICE_SIDES,
        1 <= first <= face,
        1 <= second <= face,
        first != second,
    ensures
        dot_position(face, first) != dot_position(face, second),
{
}

} // verus!
