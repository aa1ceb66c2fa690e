use tic_tac_toe::board::Tile;
use tic_tac_toe::game::{play, setup_game, Game, GameState, TicTacToeError};
use tic_tac_toe::player::Player;

fn player_one() -> Player {
    Player::new(0, 1)
}

fn player_two() -> Player {
    Player::new(0, 2)
}

fn fresh() -> Game {
    setup_game(player_one(), player_two())
}

#[test]
fn first_move_accepted() {
    let mut g = fresh();
    let r = play(&mut g, &player_one(), &Tile::new(0, 0));
    assert_eq!(r, Ok(()));
    assert_eq!(g.turn, 2);
    assert!(matches!(g.state, GameState::Active));
}

#[test]
fn out_of_turn_rejected() {
    let mut g = fresh();
    assert_eq!(play(&mut g, &player_one(), &Tile::new(0, 0)), Ok(()));
    let before = g;
    let r = play(&mut g, &player_one(), &Tile::new(1, 1));
    assert_eq!(r, Err(TicTacToeError::NotPlayersTurn));
    assert_eq!(g, before);
}

#[test]
fn column_win_attributed_to_first_player() {
    let mut g = fresh();
    assert_eq!(play(&mut g, &player_one(), &Tile::new(0, 0)), Ok(()));
    assert_eq!(play(&mut g, &player_two(), &Tile::new(1, 0)), Ok(()));
    assert_eq!(play(&mut g, &player_one(), &Tile::new(0, 1)), Ok(()));
    assert_eq!(play(&mut g, &player_two(), &Tile::new(1, 1)), Ok(()));
    assert_eq!(play(&mut g, &player_one(), &Tile::new(0, 2)), Ok(()));
    assert_eq!(g.state, GameState::Won { winner: player_one() });
    assert_eq!(g.turn, 5);
}

#[test]
fn row_win_attributed_to_second_player() {
    let mut g = fresh();
    assert_eq!(play(&mut g, &player_one(), &Tile::new(0, 0)), Ok(()));
    assert_eq!(play(&mut g, &player_two(), &Tile::new(0, 2)), Ok(()));
    assert_eq!(play(&mut g, &player_one(), &Tile::new(1, 0)), Ok(()));
    assert_eq!(play(&mut g, &player_two(), &Tile::new(1, 2)), Ok(()));
    assert_eq!(play(&mut g, &player_one(), &Tile::new(1, 1)), Ok(()));
    assert_eq!(play(&mut g, &player_two(), &Tile::new(2, 2)), Ok(()));
    assert_eq!(g.state, GameState::Won { winner: player_two() });
    assert_eq!(g.turn, 6);
}

#[test]
fn full_board_without_line_is_tied() {
    let mut g = fresh();
    let moves = [
        (player_one(), (0, 0)),
        (player_two(), (1, 0)),
        (player_one(), (2, 0)),
        (player_two(), (1, 1)),
        (player_one(), (0, 1)),
        (player_two(), (2, 1)),
        (player_one(), (1, 2)),
        (player_two(), (0, 2)),
        (player_one(), (2, 2)),
    ];
    for (mover, (x, y)) in moves {
        assert!(matches!(g.state, GameState::Active));
        assert_eq!(play(&mut g, &mover, &Tile::new(x, y)), Ok(()));
    }
    assert_eq!(g.state, GameState::Tied);
    assert_eq!(g.turn, 9);
}

#[test]
fn out_of_bounds_and_occupied_rejected() {
    let mut g = fresh();
    let before = g;
    assert_eq!(
        play(&mut g, &player_one(), &Tile::new(3, 0)),
        Err(TicTacToeError::TileOutOfBounds)
    );
    assert_eq!(g, before);
    assert_eq!(
        play(&mut g, &player_one(), &Tile::new(0, 3)),
        Err(TicTacToeError::TileOutOfBounds)
    );
    assert_eq!(g, before);
    assert_eq!(play(&mut g, &player_one(), &Tile::new(0, 0)), Ok(()));
    let before = g;
    assert_eq!(
        play(&mut g, &player_two(), &Tile::new(0, 0)),
        Err(TicTacToeError::TileAlreadySet)
    );
    assert_eq!(g, before);
}

#[test]
fn finished_game_rejects_every_submission() {
    let mut g = fresh();
    assert_eq!(play(&mut g, &player_one(), &Tile::new(0, 0)), Ok(()));
    assert_eq!(play(&mut g, &player_two(), &Tile::new(1, 0)), Ok(()));
    assert_eq!(play(&mut g, &player_one(), &Tile::new(0, 1)), Ok(()));
    assert_eq!(play(&mut g, &player_two(), &Tile::new(1, 1)), Ok(()));
    assert_eq!(play(&mut g, &player_one(), &Tile::new(0, 2)), Ok(()));
    let finished = g;
    assert_eq!(
        play(&mut g, &player_two(), &Tile::new(2, 2)),
        Err(TicTacToeError::GameAlreadyOver)
    );
    assert_eq!(g, finished);
    assert_eq!(
        play(&mut g, &player_one(), &Tile::new(2, 2)),
        Err(TicTacToeError::GameAlreadyOver)
    );
    assert_eq!(g, finished);
}

#[test]
fn turn_parity_decides_the_mover() {
    let mut g = fresh();
    assert_eq!(g.turn, 1);
    assert_eq!(g.current_player(), player_one());
    assert_eq!(g.current_player_index(), 0);
    assert_eq!(play(&mut g, &player_one(), &Tile::new(0, 0)), Ok(()));
    assert_eq!(g.turn, 2);
    assert_eq!(g.current_player(), player_two());
    assert_eq!(g.current_player_index(), 1);
    assert_eq!(play(&mut g, &player_two(), &Tile::new(1, 0)), Ok(()));
    assert_eq!(g.turn, 3);
    assert_eq!(g.current_player(), player_one());
}

#[test]
fn setup_game_builds_a_fresh_record() {
    let g = fresh();
    assert_eq!(g.players[0], player_one());
    assert_eq!(g.players[1], player_two());
    assert_eq!(g.turn, 1);
    assert!(g.is_active());
    assert!(g.board.iter().all(|row| row.iter().all(|c| c.is_none())));
}
