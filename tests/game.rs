use tictactoe::game::{check_victory, GameState};
use tictactoe::mark::{BoxState, Player};

fn play_all(g: &mut GameState, moves: &[(usize, usize)]) {
    for &(r, c) in moves {
        assert!(g.play(r, c), "move ({}, {}) should be taken", r, c);
    }
}

#[test]
fn new_game_is_empty_with_x_to_move() {
    let g = GameState::new();
    for r in 0..3 {
        for c in 0..3 {
            assert_eq!(g.cell(r, c), BoxState::Empty);
        }
    }
    assert_eq!(g.current_player(), Player::X);
    assert!(!g.game_is_over());
}

#[test]
fn turns_alternate() {
    let mut g = GameState::new();
    assert!(g.play(1, 1));
    assert_eq!(g.cell(1, 1), BoxState::X);
    assert_eq!(g.current_player(), Player::O);
    assert!(g.play(0, 0));
    assert_eq!(g.cell(0, 0), BoxState::O);
    assert_eq!(g.current_player(), Player::X);
}

#[test]
fn occupied_cell_is_ignored() {
    let mut g = GameState::new();
    assert!(g.play(2, 1));
    assert!(!g.play(2, 1));
    assert_eq!(g.cell(2, 1), BoxState::X);
    assert_eq!(g.current_player(), Player::O);
}

#[test]
fn row_wins() {
    let mut g = GameState::new();
    play_all(&mut g, &[(0, 0), (1, 0), (0, 1), (1, 1), (0, 2)]);
    assert!(g.game_is_over());
    assert_eq!(g.current_player(), Player::X);
}

#[test]
fn column_wins_for_o() {
    let mut g = GameState::new();
    play_all(&mut g, &[(0, 0), (0, 2), (1, 0), (1, 2), (2, 1), (2, 2)]);
    assert!(g.game_is_over());
    assert_eq!(g.current_player(), Player::O);
}

#[test]
fn diagonal_wins() {
    let mut g = GameState::new();
    play_all(&mut g, &[(0, 0), (0, 1), (1, 1), (0, 2), (2, 2)]);
    assert!(g.game_is_over());
    assert_eq!(g.current_player(), Player::X);
}

#[test]
fn anti_diagonal_wins() {
    let mut g = GameState::new();
    play_all(&mut g, &[(0, 2), (0, 0), (1, 1), (0, 1), (2, 0)]);
    assert!(g.game_is_over());
}

#[test]
fn no_moves_after_win() {
    let mut g = GameState::new();
    play_all(&mut g, &[(0, 0), (1, 0), (0, 1), (1, 1), (0, 2)]);
    assert!(!g.play(2, 2));
    assert_eq!(g.cell(2, 2), BoxState::Empty);
    assert_eq!(g.current_player(), Player::X);
}

#[test]
fn two_in_a_row_is_no_win() {
    let mut g = GameState::new();
    play_all(&mut g, &[(0, 0), (1, 0), (0, 1)]);
    assert!(!g.game_is_over());
    assert_eq!(check_victory(&mut g, Player::X), None);
}

#[test]
fn check_victory_names_only_the_winner() {
    let mut g = GameState::new();
    play_all(&mut g, &[(0, 1), (0, 0), (1, 1), (1, 0), (2, 1)]);
    assert_eq!(check_victory(&mut g, Player::X), Some(Player::X));
    assert_eq!(check_victory(&mut g, Player::O), None);
    assert_eq!(g.cell(0, 1), BoxState::X);
}

#[test]
fn full_board_without_line_keeps_going() {
    let mut g = GameState::new();
    play_all(
        &mut g,
        &[(0, 0), (0, 1), (0, 2), (1, 1), (1, 0), (1, 2), (2, 1), (2, 0), (2, 2)],
    );
    assert!(!g.game_is_over());
    assert_eq!(check_victory(&mut g, Player::X), None);
    assert_eq!(check_victory(&mut g, Player::O), None);
    assert_eq!(g.current_player(), Player::O);
}

#[test]
fn next_player_swaps() {
    let mut g = GameState::new();
    g.next_player();
    assert_eq!(g.current_player(), Player::O);
    g.next_player();
    assert_eq!(g.current_player(), Player::X);
}
