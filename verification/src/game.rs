use vstd::prelude::*;

use crate::board::{
    board_full, board_won, cell, column_won, diagonal_won, occupied_count, placed, row_won,
    tile_in_bounds, trio_filled_same, Board, Sign, Tile,
};
use crate::player::Player;

verus! {

/// Where a game stands: accepting moves, drawn, or won by a recorded
/// identity. `Tied` and `Won` are terminal.
#[derive(Clone, Copy, PartialEq, Eq, Structural, Debug)]
pub enum GameState {
    Active,
    Tied,
    Won { winner: Player },
}

impl Default for GameState {
    /// A freshly created game is accepting moves.
    fn default() -> (s: Self)
        ensures
            s is Active,
    {
        GameState::Active
    }
}

/// Why a move submission was rejected. Every rejection leaves the game
/// record unchanged.
#[derive(Clone, Copy, PartialEq, Eq, Structural, Debug)]
pub enum TicTacToeError {
    GameAlreadyOver,
    TileOutOfBounds,
    TileAlreadySet,
    NotPlayersTurn,
}

/// One match: the two fixed player identities, the 1-based turn counter,
/// the grid, and the game status.
#[derive(Clone, Copy, PartialEq, Eq, Debug)]
pub struct Game {
    pub players: [Player; 2],
    pub turn: u8,
    pub board: Board,
    pub state: GameState,
}

/// The index of the player who owns the current turn: odd turns belong to
/// the first player, even turns to the second.
pub open spec fn current_index_spec(g: Game) -> int {
    if g.turn % 2 == 1 {
        0
    } else {
        1
    }
}

/// The identity that owns the current turn.
pub open spec fn current_player_spec(g: Game) -> Player {
    g.players[current_index_spec(g)]
}

/// The mark a player index plays with: the first player marks `X`, the
/// second `O`.
pub open spec fn mark_of_index(i: int) -> Sign {
    if i == 0 {
        Sign::X
    } else {
        Sign::O
    }
}

/// The status a game moves to once judged on its present board: a winning
/// line yields `Won` for the current mover; otherwise a full board yields
/// `Tied` unless the game is already won; otherwise the game stays
/// `Active`. The winning check comes first, so a full winning board is
/// `Won`, never `Tied`.
pub open spec fn next_state_spec(g: Game) -> GameState {
    if board_won(g.board) {
        GameState::Won { winner: current_player_spec(g) }
    } else if !(g.state is Won) && board_full(g.board) {
        GameState::Tied
    } else {
        GameState::Active
    }
}

/// The record after an accepted move on `tile`: the current mover's mark
/// lands in the tile's cell, the status is re-judged on the new board,
/// and the turn counter advances only if the game stays active.
pub open spec fn after_move(g: Game, tile: Tile) -> Game {
    let moved = Game {
        board: placed(g.board, tile.y as int, tile.x as int, mark_of_index(current_index_spec(g))),
        ..g
    };
    let next = next_state_spec(moved);
    Game {
        state: next,
        turn: if next is Active {
            (g.turn + 1) as u8
        } else {
            g.turn
        },
        ..moved
    }
}

/// Why a submission of `tile` by `mover` is rejected, if it is; the
/// checks run in this order: a finished game, the wrong mover, a tile off
/// the board, an occupied cell.
pub open spec fn rejection(g: Game, mover: Player, tile: Tile) -> Option<TicTacToeError> {
    if !(g.state is Active) {
        Some(TicTacToeError::GameAlreadyOver)
    } else if mover != current_player_spec(g) {
        Some(TicTacToeError::NotPlayersTurn)
    } else if !tile_in_bounds(tile) {
        Some(TicTacToeError::TileOutOfBounds)
    } else if cell(g.board, tile.y as int, tile.x as int) is Some {
        Some(TicTacToeError::TileAlreadySet)
    } else {
        None
    }
}

/// The record invariant, established by `setup_game` and preserved by
/// every operation:
/// - the turn counter is 1-based;
/// - while active, exactly `turn - 1` cells are occupied and the board is
///   neither won nor full;
/// - once tied, the board is full but not won, and the occupied count
///   equals the turn at which the game ended;
/// - once won, the board holds a winning line, the occupied count equals
///   the final turn, and the recorded winner is the identity that owned
///   that turn.
pub open spec fn wf(g: Game) -> bool {
    &&& g.turn >= 1
    &&& g.state is Active ==> {
        &&& occupied_count(g.board) == g.turn - 1
        &&& !board_won(g.board)
        &&& !board_full(g.board)
    }
    &&& g.state is Tied ==> {
        &&& occupied_count(g.board) == g.turn
        &&& board_full(g.board)
        &&& !board_won(g.board)
    }
    &&& g.state matches GameState::Won { winner } ==> {
        &&& occupied_count(g.board) == g.turn
        &&& board_won(g.board)
        &&& winner == current_player_spec(g)
    }
}

/// Creates a fresh game record for the two given identities: an empty
/// board, turn 1, status `Active`. The identities are fixed for the life
/// of the record; duplicate identities are accepted, as the engine never
/// rejects them at creation.
pub fn setup_game(player_one: Player, player_two: Player) -> (g: Game)
    ensures
        g.players[0] == player_one,
        g.players[1] == player_two,
        g.turn == 1,
        g.state is Active,
        forall|i: int, j: int| 0 <= i < 3 && 0 <= j < 3 ==> #[trigger] cell(g.board, i, j) is None,
        wf(g),
{
    let empty_row: [Option<Sign>; 3] = [None, None, None];
    let g = Game {
        players: [player_one, player_two],
        turn: 1,
        board: [empty_row, empty_row, empty_row],
        state: GameState::Active,
    };
    g
}

/// Submits one move: `player_to_move` asks to mark `tile`. The request is
/// rejected — and the record left byte-for-byte unchanged — on a finished
/// game, a submission out of turn, a tile off the board, or an occupied
/// cell, in that order of checks; otherwise the move is applied
/// atomically as `Game::play` describes.
pub fn play(game: &mut Game, player_to_move: &Player, tile: &Tile) -> (r: Result<
    (),
    TicTacToeError,
>)
    requires
        wf(*old(game)),
    ensures
        wf(*final(game)),
        final(game).players == old(game).players,
        (match rejection(*old(game), *player_to_move, *tile) {
            Some(e) => r == Result::<(), TicTacToeError>::Err(e) && *final(game) == *old(game),
            None => r is Ok && *final(game) == after_move(*old(game), *tile),
        }),
{
    game.check_if_active()?;
    if !(*player_to_move == game.current_player()) {
        return Err(TicTacToeError::NotPlayersTurn);
    }
    game.play(tile)
}

impl Game {
    /// Whether the game is still accepting moves.
    pub fn is_active(&self) -> (r: bool)
        ensures
            r == (self.state is Active),
    {
        matches!(self.state, GameState::Active)
    }

    /// The index of the player who owns the current turn: 0 on odd turns,
    /// 1 on even turns.
    pub fn current_player_index(&self) -> (r: usize)
        ensures
            r as int == current_index_spec(*self),
    {
        if self.turn % 2 == 1 {
            0
        } else {
            1
        }
    }

    /// The identity that owns the current turn.
    pub fn current_player(&self) -> (r: Player)
        requires
            self.turn >= 1,
        ensures
            r == current_player_spec(*self),
    {
        self.players[self.current_player_index()]
    }

    /// Succeeds exactly while the game is active; a finished game is
    /// reported as `GameAlreadyOver`.
    pub fn check_if_active(&self) -> (r: Result<(), TicTacToeError>)
        ensures
            self.state is Active ==> r is Ok,
            !(self.state is Active) ==> r == Result::<(), TicTacToeError>::Err(
                TicTacToeError::GameAlreadyOver,
            ),
    {
        if !self.is_active() {
            return Err(TicTacToeError::GameAlreadyOver);
        }
        Ok(())
    }

    /// Submits the current mover's mark for `tile`: rejects a finished
    /// game, a tile off the board, or an occupied cell, leaving the
    /// record unchanged; otherwise writes the single cell, re-judges the
    /// status, and advances the turn only if the game stays active.
    /// The caller is expected to have checked that the submitting
    /// identity owns the turn.
    pub fn play(&mut self, tile: &Tile) -> (r: Result<(), TicTacToeError>)
        requires
            wf(*old(self)),
        ensures
            wf(*final(self)),
            final(self).players == old(self).players,
            !(old(self).state is Active) ==> r == Result::<(), TicTacToeError>::Err(
                TicTacToeError::GameAlreadyOver,
            ) && *final(self) == *old(self),
            old(self).state is Active && !tile_in_bounds(*tile) ==> r == Result::<
                (),
                TicTacToeError,
            >::Err(TicTacToeError::TileOutOfBounds) && *final(self) == *old(self),
            old(self).state is Active && tile_in_bounds(*tile) && cell(
                old(self).board,
                tile.y as int,
                tile.x as int,
            ) is Some ==> r == Result::<(), TicTacToeError>::Err(TicTacToeError::TileAlreadySet)
                && *final(self) == *old(self),
            old(self).state is Active && tile_in_bounds(*tile) && cell(
                old(self).board,
                tile.y as int,
                tile.x as int,
            ) is None ==> r is Ok && *final(self) == after_move(*old(self), *tile),
    {
        self.check_if_active()?;
        self.update_board(tile)?;
        proof {
            crate::board::lemma_placed_count(
                old(self).board,
                tile.y as int,
                tile.x as int,
                mark_of_index(current_index_spec(*old(self))),
            );
        }
        self.update_state_and_turn()?;
        Ok(())
    }

    /// Writes the current mover's mark into the cell that `tile` names.
    /// A tile off the board or an occupied cell is rejected and nothing
    /// changes; otherwise exactly that one cell is written, and the
    /// turn, players, and status stay as they were.
    pub fn update_board(&mut self, tile: &Tile) -> (r: Result<(), TicTacToeError>)
        requires
            old(self).turn >= 1,
        ensures
            final(self).players == old(self).players,
            final(self).turn == old(self).turn,
            final(self).state == old(self).state,
            !tile_in_bounds(*tile) ==> r == Result::<(), TicTacToeError>::Err(
                TicTacToeError::TileOutOfBounds,
            ) && *final(self) == *old(self),
            tile_in_bounds(*tile) && cell(old(self).board, tile.y as int, tile.x as int) is Some
                ==> r == Result::<(), TicTacToeError>::Err(TicTacToeError::TileAlreadySet)
                && *final(self) == *old(self),
            tile_in_bounds(*tile) && cell(old(self).board, tile.y as int, tile.x as int) is None
                ==> r is Ok && final(self).board == placed(
                old(self).board,
                tile.y as int,
                tile.x as int,
                mark_of_index(current_index_spec(*old(self))),
            ),
    {
        let current_player_index = self.current_player_index();
        if tile.x > 2 || tile.y > 2 {
            return Err(TicTacToeError::TileOutOfBounds);
        }
        match self.board[tile.y as usize][tile.x as usize] {
            Some(_) => Err(TicTacToeError::TileAlreadySet),
            None => {
                let mut row = self.board[tile.y as usize];
                row[tile.x as usize] = Sign::from_usize(current_player_index);
                self.board[tile.y as usize] = row;
                proof {
                    let y = tile.y as int;
                    let x = tile.x as int;
                    let s = mark_of_index(current_index_spec(*old(self)));
                    assert forall|i: int, j: int| 0 <= i < 3 && 0 <= j < 3 implies #[trigger] cell(
                        self.board,
                        i,
                        j,
                    ) == (if i == y && j == x {
                        Some(s)
                    } else {
                        cell(old(self).board, i, j)
                    }) by {}
                    crate::board::lemma_board_is_placed(self.board, old(self).board, y, x, s);
                }
                Ok(())
            },
        }
    }

    /// Re-judges the status on the present board and advances the turn
    /// counter exactly when the game stays active; the board and the
    /// players are untouched. Always succeeds.
    pub fn update_state_and_turn(&mut self) -> (r: Result<(), TicTacToeError>)
        requires
            1 <= old(self).turn < 255,
        ensures
            r is Ok,
            final(self).board == old(self).board,
            final(self).players == old(self).players,
            final(self).state == next_state_spec(*old(self)),
            next_state_spec(*old(self)) is Active ==> final(self).turn == old(self).turn + 1,
            !(next_state_spec(*old(self)) is Active) ==> final(self).turn == old(self).turn,
    {
        match self.get_new_gamestate() {
            GameState::Won { winner: winning_player } => {
                self.state = GameState::Won { winner: winning_player };
            },
            GameState::Tied => {
                self.state = GameState::Tied;
            },
            GameState::Active => {
                self.state = GameState::Active;
                self.turn += 1;
            },
        }
        Ok(())
    }

    /// The status the game should move to, judged on the present board;
    /// the record itself is not changed.
    pub fn get_new_gamestate(&mut self) -> (r: GameState)
        requires
            old(self).turn >= 1,
        ensures
            *final(self) == *old(self),
            r == next_state_spec(*old(self)),
    {
        if self.is_won() {
            return GameState::Won { winner: self.current_player() };
        } else if self.is_tied() {
            return GameState::Tied;
        }
        GameState::Active
    }

    /// Whether the three cells at the given `(row, column)` coordinates
    /// hold one identical mark.
    fn is_winning_trio(&self, trio: [(usize, usize); 3]) -> (r: bool)
        requires
            forall|k: int| 0 <= k < 3 ==> (#[trigger] trio[k]).0 < 3 && trio[k].1 < 3,
        ensures
            r == trio_filled_same(
                self.board,
                (trio[0].0 as int, trio[0].1 as int),
                (trio[1].0 as int, trio[1].1 as int),
                (trio[2].0 as int, trio[2].1 as int),
            ),
    {
        let first = trio[0];
        let second = trio[1];
        let third = trio[2];
        self.board[first.0][first.1].is_some()
            && self.board[first.0][first.1] == self.board[second.0][second.1]
            && self.board[first.0][first.1] == self.board[third.0][third.1]
    }

    /// Whether row `row` is fully occupied by one mark.
    pub fn three_same_row(&self, row: usize) -> (r: bool)
        requires
            row < 3,
        ensures
            r == row_won(self.board, row as int),
    {
        self.is_winning_trio([(row, 0), (row, 1), (row, 2)])
    }

    /// Whether column `col` is fully occupied by one mark.
    pub fn three_same_column(&self, col: usize) -> (r: bool)
        requires
            col < 3,
        ensures
            r == column_won(self.board, col as int),
    {
        self.is_winning_trio([(0, col), (1, col), (2, col)])
    }

    /// Whether either diagonal is fully occupied by one mark.
    pub fn three_diagonal(&self) -> (r: bool)
        ensures
            r == diagonal_won(self.board),
    {
        self.is_winning_trio([(0, 0), (1, 1), (2, 2)])
            || self.is_winning_trio([(0, 2), (1, 1), (2, 0)])
    }

    /// Whether any row, column, or diagonal is fully occupied by one
    /// identical mark.
    pub fn is_won(&self) -> (r: bool)
        ensures
            r == board_won(self.board),
    {
        let mut i: usize = 0;
        while i < 3
            invariant
                i <= 3,
                forall|j: int|
                    0 <= j < i ==> !(#[trigger] row_won(self.board, j)) && !column_won(
                        self.board,
                        j,
                    ),
            decreases 3 - i,
        {
            if self.three_same_row(i) || self.three_same_column(i) {
                return true;
            }
            i = i + 1;
        }
        if self.three_diagonal() {
            return true;
        }
        proof {
            assert(!row_won(self.board, 0) && !row_won(self.board, 1) && !row_won(self.board, 2));
            assert(!column_won(self.board, 0) && !column_won(self.board, 1) && !column_won(
                self.board,
                2,
            ));
            assert(!board_won(self.board));
        }
        false
    }

    /// Whether the game is drawn on its present record: never while the
    /// game is already won, otherwise exactly when every cell is
    /// occupied.
    pub fn is_tied(&self) -> (r: bool)
        ensures
            r == (!(self.state is Won) && board_full(self.board)),
    {
        if let GameState::Won { winner: _ } = self.state {
            return false;
        }
        self.are_all_tiles_full()
    }

    /// Whether every cell is occupied.
    pub fn are_all_tiles_full(&self) -> (r: bool)
        ensures
            r == board_full(self.board),
    {
        let mut row: usize = 0;
        while row < 3
            invariant
                row <= 3,
                forall|i: int, j: int|
                    0 <= i < row && 0 <= j < 3 ==> #[trigger] cell(self.board, i, j) is Some,
            decreases 3 - row,
        {
            let mut column: usize = 0;
            while column < 3
                invariant
                    row < 3,
                    column <= 3,
                    forall|i: int, j: int|
                        0 <= i < row && 0 <= j < 3 ==> #[trigger] cell(self.board, i, j) is Some,
                    forall|j: int|
                        0 <= j < column ==> #[trigger] cell(self.board, row as int, j) is Some,
                decreases 3 - column,
            {
                match self.board[row][column] {
                    Some(_) => {},
                    None => {
                        assert(cell(self.board, row as int, column as int) is None);
                        return false;
                    },
                }
                column = column + 1;
            }
            row = row + 1;
        }
        true
    }
}

} // verus!
