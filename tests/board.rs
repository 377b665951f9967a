use wordle::board::{Board, TURN_LIMIT};
use wordle::score::LetterScore;

#[test]
fn six_misses_end_in_a_loss() {
    let mut board = Board::new(*b"CRANE");
    for k in 0..TURN_LIMIT {
        assert!(!board.is_terminal());
        board.set_input(*b"PIOUS");
        let s = board.score();
        assert!(!s.is_win());
        assert_eq!(board.turn(), k + 1);
    }
    assert!(board.is_terminal());
    assert!(!board.is_won());
    assert_eq!(&board.word(), b"CRANE");
}

#[test]
fn a_win_ends_the_game_at_once() {
    let mut board = Board::new(*b"CRANE");
    board.set_input(*b"CRATE");
    let first = board.score();
    assert_eq!(first.decode()[3], LetterScore::Wrong);
    assert!(!board.is_terminal());
    board.set_input(*b"CRANE");
    assert!(board.score().is_win());
    assert!(board.is_terminal());
    assert!(board.is_won());
    assert_eq!(board.turn(), 2);
    let (w, s) = board.guess_at(0);
    assert_eq!(&w, b"CRATE");
    assert_eq!(s, first);
    let (w, s) = board.guess_at(1);
    assert_eq!(&w, b"CRANE");
    assert!(s.is_win());
}

#[test]
fn a_new_board_is_in_progress() {
    let board = Board::new(*b"WORDS");
    assert_eq!(board.turn(), 0);
    assert!(!board.is_terminal());
    assert!(!board.is_won());
}
