use tictactoe::cursor::{move_selection, Direction};
use tictactoe::field::{Field, PlacementError, Player};

fn board_of(marks: &[((isize, isize), Player)]) -> Field {
    let mut f = Field::default();
    for (pos, p) in marks {
        assert!(f.set_player(*pos, *p));
    }
    f
}

#[test]
fn cursor_wraps_at_every_edge() {
    for k in 1..=3isize {
        assert_eq!(move_selection((1, k), Direction::Up), (3, k));
        assert_eq!(move_selection((3, k), Direction::Down), (1, k));
        assert_eq!(move_selection((k, 1), Direction::Left), (k, 3));
        assert_eq!(move_selection((k, 3), Direction::Right), (k, 1));
    }
}

#[test]
fn cursor_moves_one_step_inside() {
    assert_eq!(move_selection((2, 2), Direction::Up), (1, 2));
    assert_eq!(move_selection((2, 2), Direction::Down), (3, 2));
    assert_eq!(move_selection((2, 2), Direction::Left), (2, 1));
    assert_eq!(move_selection((2, 2), Direction::Right), (2, 3));
}

#[test]
fn get_player_reads_the_placed_cell() {
    let f = board_of(&[((2, 3), Player::Nought)]);
    assert_eq!(*f.get_player((2, 3)), Player::Nought);
    assert_eq!(*f.get_player((3, 2)), Player::Empty);
}

#[test]
fn empty_board_has_no_outcome() {
    let mut f = Field::default();
    assert!(!f.check_won());
    assert!(!f.check_tie());
    assert_eq!(*f.who_won(), Player::Empty);
    assert_eq!(f.evaluate_win(), None);
}

#[test]
fn place_on_occupied_cell_is_refused() {
    let mut f = board_of(&[((1, 1), Player::Cross)]);
    assert_eq!(f.place((1, 1), Player::Nought), Err(PlacementError::AlreadyOccupied));
    assert_eq!(*f.get_player((1, 1)), Player::Cross);
    assert!(!f.set_player((1, 1), Player::Nought));
    assert_eq!(*f.get_player((1, 1)), Player::Cross);
}

#[test]
fn place_after_win_is_refused() {
    let mut f = board_of(&[
        ((1, 1), Player::Nought),
        ((2, 2), Player::Nought),
        ((3, 3), Player::Nought),
    ]);
    assert_eq!(f.place((1, 2), Player::Cross), Err(PlacementError::GameConcluded));
    assert_eq!(*f.get_player((1, 2)), Player::Empty);
    assert!(!f.set_player((1, 2), Player::Cross));
    assert_eq!(*f.get_player((1, 2)), Player::Empty);
}

#[test]
fn place_on_occupied_cell_after_win_reports_occupied() {
    let mut f = board_of(&[((1, 1), Player::Cross), ((1, 2), Player::Cross), ((1, 3), Player::Cross)]);
    assert_eq!(f.place((1, 1), Player::Nought), Err(PlacementError::AlreadyOccupied));
}

#[test]
fn column_win_is_detected() {
    let mut f = board_of(&[((1, 2), Player::Nought), ((2, 2), Player::Nought), ((3, 2), Player::Nought)]);
    assert!(f.check_won());
    assert_eq!(*f.who_won(), Player::Nought);
    assert_eq!(f.evaluate_win(), Some((Player::Nought, [1, 4, 7])));
}

#[test]
fn anti_diagonal_win_is_detected() {
    let mut f = board_of(&[((1, 3), Player::Cross), ((2, 2), Player::Cross), ((3, 1), Player::Cross)]);
    assert_eq!(f.evaluate_win(), Some((Player::Cross, [2, 4, 6])));
}

#[test]
fn mixed_line_is_no_win() {
    let mut f = board_of(&[((1, 1), Player::Cross), ((1, 2), Player::Nought), ((1, 3), Player::Cross)]);
    assert!(!f.check_won());
    assert_eq!(*f.who_won(), Player::Empty);
}

#[test]
fn row_wins_before_column_formed_at_once() {
    // (1,1) completes the top row and the left column in one placement.
    let mut f = board_of(&[
        ((1, 2), Player::Cross),
        ((1, 3), Player::Cross),
        ((2, 1), Player::Cross),
        ((3, 1), Player::Cross),
        ((1, 1), Player::Cross),
    ]);
    assert_eq!(f.evaluate_win(), Some((Player::Cross, [0, 1, 2])));
}

#[test]
fn column_wins_before_diagonal_formed_at_once() {
    let mut f = board_of(&[
        ((2, 1), Player::Nought),
        ((3, 1), Player::Nought),
        ((2, 2), Player::Nought),
        ((3, 3), Player::Nought),
        ((1, 1), Player::Nought),
    ]);
    assert!(f.check_won());
    assert_eq!(f.evaluate_win(), Some((Player::Nought, [0, 3, 6])));
}

#[test]
fn win_is_kept_once_recorded() {
    let mut f = board_of(&[((2, 1), Player::Cross), ((2, 2), Player::Cross), ((2, 3), Player::Cross)]);
    assert!(f.check_won());
    assert!(f.check_won());
    assert_eq!(f.evaluate_win(), Some((Player::Cross, [3, 4, 5])));
}

#[test]
fn full_board_without_line_is_a_tie() {
    let f = &mut board_of(&[
        ((1, 1), Player::Cross),
        ((1, 2), Player::Nought),
        ((1, 3), Player::Cross),
        ((2, 1), Player::Cross),
        ((2, 2), Player::Nought),
        ((2, 3), Player::Nought),
        ((3, 1), Player::Nought),
        ((3, 2), Player::Cross),
        ((3, 3), Player::Cross),
    ]);
    assert!(f.check_tie());
    assert!(!f.check_won());
    assert_eq!(f.evaluate_win(), None);
}

#[test]
fn full_board_with_line_is_a_win() {
    let mut f = board_of(&[
        ((1, 1), Player::Cross),
        ((1, 2), Player::Cross),
        ((2, 1), Player::Nought),
        ((2, 2), Player::Nought),
        ((2, 3), Player::Cross),
        ((3, 1), Player::Nought),
        ((3, 2), Player::Cross),
        ((3, 3), Player::Nought),
    ]);
    assert!(!f.check_tie());
    assert!(!f.check_won());
    assert!(f.set_player((1, 3), Player::Cross));
    assert!(f.check_tie());
    assert!(f.check_won());
    assert_eq!(*f.who_won(), Player::Cross);
    assert_eq!(f.evaluate_win(), Some((Player::Cross, [0, 1, 2])));
}

#[test]
fn player_names() {
    assert_eq!(Player::Cross.name(), "Cross");
    assert_eq!(Player::Nought.name(), "Nought");
    assert_eq!(Player::Empty.name(), "_");
}
