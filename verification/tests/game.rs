//! Tests for the board and turn state: click handling, turn
//! alternation, and win detection.

use tictactoe::state::{gen_board, title_text, Board, CellState, State, Tile, Title};

/// Click the middle of cell (x, y) in a 300x300 window.
fn click(st: &mut State, board: &mut Board, x: u32, y: u32) -> Option<Title> {
    st.handle_click(x * 100 + 50, y * 100 + 50, board, 300, 300)
}

fn tile_at(board: &Board, x: usize, y: usize) -> Tile {
    board.tiles[x * 3 + y]
}

#[test]
fn new_board_is_empty() {
    let board = gen_board();
    assert_eq!(board.tiles.len(), 9);
    for t in board.tiles.iter() {
        assert_eq!(t.state, CellState::Empty);
        assert_eq!(t.frame, 0);
    }
}

#[test]
fn new_game_cross_moves_first() {
    let st = State::new();
    assert!(st.turn);
    assert!(!st.finished);
}

#[test]
fn tile_new_is_empty() {
    let t = Tile::new();
    assert_eq!(t.state, CellState::Empty);
    assert_eq!(t.frame, 0);
}

#[test]
fn first_click_places_cross() {
    let mut board = gen_board();
    let mut st = State::new();
    let t = click(&mut st, &mut board, 0, 0);
    assert_eq!(t, Some(Title::KnotsTurn));
    assert_eq!(tile_at(&board, 0, 0).state, CellState::Cross);
    assert_eq!(tile_at(&board, 0, 0).frame, 0);
    assert!(!st.turn);
    assert!(!st.finished);
}

#[test]
fn pixel_bands_map_to_cells() {
    let mut board = gen_board();
    let mut st = State::new();
    // top-right corner pixel of the window lands in cell (2, 0)
    st.handle_click(299, 0, &mut board, 300, 300);
    assert_eq!(tile_at(&board, 2, 0).state, CellState::Cross);
    // bottom-left corner pixel lands in cell (0, 2)
    st.handle_click(0, 299, &mut board, 300, 300);
    assert_eq!(tile_at(&board, 0, 2).state, CellState::Knot);
}

#[test]
fn bands_follow_the_spec_formula_on_odd_window_sizes() {
    // in a 5-pixel-wide window, pixel 3 sits in the middle third:
    // floor(3 / (5/3)) = floor(3 * 3 / 5) = 1
    let mut board = gen_board();
    let mut st = State::new();
    st.handle_click(3, 0, &mut board, 5, 5);
    assert_eq!(tile_at(&board, 1, 0).state, CellState::Cross);
}

#[test]
fn one_pixel_window_clicks_the_first_cell() {
    let mut board = gen_board();
    let mut st = State::new();
    st.handle_click(0, 0, &mut board, 1, 1);
    assert_eq!(tile_at(&board, 0, 0).state, CellState::Cross);
}

#[test]
fn far_pixels_clamp_to_the_last_cell() {
    // a coordinate outside the window still lands on the board: each
    // band is clamped to the last column and row
    let mut board = gen_board();
    let mut st = State::new();
    st.handle_click(100_000, 100_000, &mut board, 300, 300);
    assert_eq!(tile_at(&board, 2, 2).state, CellState::Cross);
}

#[test]
fn click_on_occupied_cell_changes_nothing() {
    let mut board = gen_board();
    let mut st = State::new();
    click(&mut st, &mut board, 1, 1);
    let before_tiles: Vec<Tile> = board.tiles.clone();
    let before_st = st;
    let t = click(&mut st, &mut board, 1, 1);
    assert_eq!(t, None);
    assert_eq!(board.tiles, before_tiles);
    assert_eq!(st, before_st);
}

#[test]
fn click_after_finish_changes_nothing() {
    let mut board = gen_board();
    let mut st = State::new();
    // cross fills column 0 while knot plays elsewhere
    click(&mut st, &mut board, 0, 0);
    click(&mut st, &mut board, 1, 1);
    click(&mut st, &mut board, 0, 1);
    click(&mut st, &mut board, 2, 2);
    let t = click(&mut st, &mut board, 0, 2);
    assert_eq!(t, Some(Title::CrossWins));
    assert!(st.finished);
    let before_tiles: Vec<Tile> = board.tiles.clone();
    let before_st = st;
    let t2 = click(&mut st, &mut board, 1, 0);
    assert_eq!(t2, None);
    assert_eq!(board.tiles, before_tiles);
    assert_eq!(st, before_st);
}

#[test]
fn turns_alternate_between_accepted_moves() {
    let mut board = gen_board();
    let mut st = State::new();
    let moves = [(0, 0), (1, 0), (2, 0), (1, 1), (0, 1)];
    let expected_marks = [
        CellState::Cross,
        CellState::Knot,
        CellState::Cross,
        CellState::Knot,
        CellState::Cross,
    ];
    let expected_titles = [
        Title::KnotsTurn,
        Title::CrossTurn,
        Title::KnotsTurn,
        Title::CrossTurn,
        Title::KnotsTurn,
    ];
    for (i, (x, y)) in moves.iter().enumerate() {
        assert_eq!(st.turn, i % 2 == 0);
        let t = click(&mut st, &mut board, *x, *y);
        assert_eq!(t, Some(expected_titles[i]));
        assert_eq!(tile_at(&board, *x as usize, *y as usize).state, expected_marks[i]);
    }
}

/// Build a board directly from occupants, cell (x, y) at index x * 3 + y.
fn board_of(states: [CellState; 9]) -> Board {
    let mut tiles = Vec::new();
    for s in states.iter() {
        tiles.push(Tile { state: *s, frame: 0 });
    }
    Board { tiles }
}

const E: CellState = CellState::Empty;
const X: CellState = CellState::Cross;
const O: CellState = CellState::Knot;

fn wins(states: [CellState; 9]) -> bool {
    let board = board_of(states);
    let mut st = State::new();
    let t = st.check_victory(&board);
    assert_eq!(st.finished, t.is_some());
    st.finished
}

#[test]
fn each_column_win_fires() {
    assert!(wins([X, X, X, E, E, E, E, E, E]));
    assert!(wins([E, E, E, O, O, O, E, E, E]));
    assert!(wins([E, E, E, E, E, E, X, X, X]));
}

#[test]
fn each_row_win_fires() {
    assert!(wins([X, E, E, X, E, E, X, E, E]));
    assert!(wins([E, O, E, E, O, E, E, O, E]));
    assert!(wins([E, E, X, E, E, X, E, E, X]));
}

#[test]
fn each_diagonal_win_fires() {
    assert!(wins([X, E, E, E, X, E, E, E, X]));
    assert!(wins([E, E, O, E, O, E, O, E, E]));
}

#[test]
fn no_win_on_other_triples() {
    // three crosses in an L, not one of the eight patterns
    assert!(!wins([X, X, E, X, E, E, E, E, E]));
    // scattered crosses
    assert!(!wins([X, E, X, E, E, E, X, E, E]));
    // a mixed line does not win
    assert!(!wins([X, O, X, E, E, E, E, E, E]));
    assert!(!wins([E, E, E, E, E, E, E, E, E]));
}

#[test]
fn check_victory_reports_the_mover() {
    let board = board_of([O, O, O, E, E, E, X, X, E]);
    let mut st = State::new();
    st.turn = false; // knot just moved
    let t = st.check_victory(&board);
    assert_eq!(t, Some(Title::KnotsWins));
    assert!(st.finished);
    assert!(!st.turn);
}

#[test]
fn check_victory_without_win_changes_nothing() {
    let board = board_of([X, O, E, E, E, E, E, E, E]);
    let mut st = State::new();
    let t = st.check_victory(&board);
    assert_eq!(t, None);
    assert!(!st.finished);
    assert!(st.turn);
}

#[test]
fn check_victory_on_finished_game_stays_finished() {
    let board = board_of([X, O, E, E, E, E, E, E, E]);
    let mut st = State::new();
    st.finished = true;
    let t = st.check_victory(&board);
    assert_eq!(t, None);
    assert!(st.finished);
}

#[test]
fn column_win_scenario() {
    // empty board: cross (0,0), knot (1,1), cross (0,1), knot (2,2),
    // cross (0,2) completes column 0
    let mut board = gen_board();
    let mut st = State::new();
    assert_eq!(click(&mut st, &mut board, 0, 0), Some(Title::KnotsTurn));
    assert_eq!(click(&mut st, &mut board, 1, 1), Some(Title::CrossTurn));
    assert_eq!(click(&mut st, &mut board, 0, 1), Some(Title::KnotsTurn));
    assert_eq!(click(&mut st, &mut board, 2, 2), Some(Title::CrossTurn));
    let t = click(&mut st, &mut board, 0, 2);
    assert_eq!(t, Some(Title::CrossWins));
    assert_eq!(title_text(t.unwrap()), "Congratulations Cross!");
    assert!(st.finished);
    // the winning move does not flip the turn
    assert!(st.turn);
    // a subsequent click anywhere is a no-op
    let before_tiles: Vec<Tile> = board.tiles.clone();
    assert_eq!(click(&mut st, &mut board, 1, 0), None);
    assert_eq!(board.tiles, before_tiles);
}

#[test]
fn full_board_without_line_is_not_finished() {
    // a draw: the board fills with no three-in-a-row
    let mut board = gen_board();
    let mut st = State::new();
    let moves = [
        (0, 0), // X
        (1, 0), // O
        (2, 0), // X
        (1, 1), // O
        (0, 1), // X
        (2, 1), // O
        (1, 2), // X
        (0, 2), // O
        (2, 2), // X
    ];
    for (x, y) in moves.iter() {
        let t = click(&mut st, &mut board, *x, *y);
        assert!(t.is_some());
        assert!(!st.finished);
    }
    for t in board.tiles.iter() {
        assert_ne!(t.state, CellState::Empty);
    }
    // further clicks are no-ops because no empty cell remains
    let before_tiles: Vec<Tile> = board.tiles.clone();
    let before_st = st;
    for (x, y) in moves.iter() {
        assert_eq!(click(&mut st, &mut board, *x, *y), None);
    }
    assert_eq!(board.tiles, before_tiles);
    assert_eq!(st, before_st);
}

#[test]
fn change_turn_flips_and_reports() {
    let mut st = State::new();
    let t = st.change_turn();
    assert!(!st.turn);
    assert_eq!(t, Title::KnotsTurn);
    let t2 = st.change_turn();
    assert!(st.turn);
    assert_eq!(t2, Title::CrossTurn);
}

#[test]
fn title_texts() {
    assert_eq!(title_text(Title::CrossTurn), "tic tac toe: cross turn");
    assert_eq!(title_text(Title::KnotsTurn), "tic tac toe: knots turn");
    assert_eq!(title_text(Title::CrossWins), "Congratulations Cross!");
    assert_eq!(title_text(Title::KnotsWins), "Congratulations Knots!");
}
