use monopoly::components::board::{cell_at, cell_position, RowSide, SIDE_LENGTH};
use monopoly::components::dice::{dice_columns, dice_dot, DICE_SIDES};

#[test]
fn every_side_of_the_board_starts_with_a_corner() {
    assert_eq!(RowSide::from_index(0), RowSide::Top);
    assert_eq!(RowSide::from_index(9), RowSide::Top);
    assert_eq!(RowSide::from_index(10), RowSide::Right);
    assert_eq!(RowSide::from_index(19), RowSide::Right);
    assert_eq!(RowSide::from_index(20), RowSide::Bottom);
    assert_eq!(RowSide::from_index(29), RowSide::Bottom);
    assert_eq!(RowSide::from_index(30), RowSide::Left);
    assert_eq!(RowSide::from_index(39), RowSide::Left);
}

#[test]
fn the_corners_of_the_board_lie_in_the_corners_of_the_grid() {
    assert_eq!(cell_position(0), (1, 1));
    assert_eq!(cell_position(10), (11, 1));
    assert_eq!(cell_position(20), (11, 11));
    assert_eq!(cell_position(30), (1, 11));
}

#[test]
fn the_board_goes_round_the_grid() {
    assert_eq!(cell_position(1), (2, 1));
    assert_eq!(cell_position(9), (10, 1));
    assert_eq!(cell_position(11), (11, 2));
    assert_eq!(cell_position(19), (11, 10));
    assert_eq!(cell_position(21), (10, 11));
    assert_eq!(cell_position(29), (2, 11));
    assert_eq!(cell_position(31), (1, 10));
    assert_eq!(cell_position(39), (1, 2));
}

#[test]
fn every_cell_is_found_at_its_place() {
    let mut places = Vec::new();
    for index in 0..40 {
        let (column, row) = cell_position(index);
        assert!(column == 1 || column == 11 || row == 1 || row == 11);
        assert_eq!(cell_at(column, row), Some(index));
        assert!(!places.contains(&(column, row)));
        places.push((column, row));
    }
}

#[test]
fn there_is_no_cell_off_the_border() {
    assert_eq!(SIDE_LENGTH, 11);
    let mut on_border = 0;
    for column in 0..=12 {
        for row in 0..=12 {
            match cell_at(column, row) {
                Some(index) => {
                    assert_eq!(cell_position(index), (column, row));
                    on_border += 1;
                }
                None => assert!(
                    column == 0 || column == 12 || row == 0 || row == 12
                        || (column > 1 && column < 11 && row > 1 && row < 11)
                ),
            }
        }
    }
    assert_eq!(on_border, 40);
}

#[test]
fn the_faces_of_a_die_have_their_columns() {
    assert_eq!(DICE_SIDES, 6);
    let columns: Vec<usize> = (1..=6).map(dice_columns).collect();
    assert_eq!(columns, vec![1, 2, 3, 2, 3, 2]);
}

#[test]
fn the_dots_of_a_die_lie_where_they_belong() {
    let dots = |face: usize| -> Vec<(usize, usize)> {
        (1..=face).map(|dot| dice_dot(face, dot)).collect()
    };
    assert_eq!(dots(1), vec![(1, 1)]);
    assert_eq!(dots(2), vec![(2, 1), (1, 2)]);
    assert_eq!(dots(3), vec![(3, 1), (2, 2), (1, 3)]);
    assert_eq!(dots(4), vec![(1, 1), (2, 1), (1, 2), (2, 2)]);
    assert_eq!(dots(5), vec![(1, 1), (3, 1), (2, 2), (1, 3), (3, 3)]);
    assert_eq!(dots(6), vec![(1, 1), (2, 1), (1, 2), (2, 2), (1, 3), (2, 3)]);
}

#[test]
fn no_two_dots_of_a_face_share_a_place() {
    for face in 1..=6 {
        for first in 1..=face {
            for second in 1..first {
                assert_ne!(dice_dot(face, first), dice_dot(face, second));
            }
            let (column, row) = dice_dot(face, first);
            assert!((1..=dice_columns(face)).contains(&column));
            assert!((1..=3).contains(&row));
        }
    }
}
