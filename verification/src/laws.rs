use vstd::prelude::*;

use crate::board::{board_full, board_won, cell, tile_in_bounds, Tile};
use crate::game::{
    after_move, current_player_spec, next_state_spec, rejection, Game, GameState, TicTacToeError,
};
use crate::player::Player;

verus! {

/// Turn parity: in a record whose two identities differ, the current
/// mover is the first player exactly on the odd turns.
pub proof fn lemma_turn_parity(g: Game)
    requires
        g.turn >= 1,
        g.players[0] != g.players[1],
    ensures
        (current_player_spec(g) == g.players[0]) <==> (g.turn % 2 == 1),
{
}

/// Monotonic termination: once a game is tied or won, every submission by
/// any identity for any tile is rejected as `GameAlreadyOver` — and
/// `play`'s contract then leaves the record unchanged.
pub proof fn lemma_terminal_rejects(g: Game, mover: Player, tile: Tile)
    requires
        !(g.state is Active),
    ensures
        rejection(g, mover, tile) == Some(TicTacToeError::GameAlreadyOver),
{
}

/// Win precedence: a board that is simultaneously full and holds a
/// winning line is judged `Won`, never `Tied`.
pub proof fn lemma_win_precedence(g: Game)
    requires
        board_won(g.board),
        board_full(g.board),
    ensures
        next_state_spec(g) is Won,
        !(next_state_spec(g) is Tied),
{
}

/// Winner attribution: when an accepted move ends the game with a win,
/// the recorded winner is the identity that made that move — the current
/// mover — never the opponent.
pub proof fn lemma_winner_attribution(g: Game, tile: Tile)
    requires
        g.state is Active,
        tile_in_bounds(tile),
        cell(g.board, tile.y as int, tile.x as int) is None,
    ensures
        (after_move(g, tile).state matches GameState::Won { winner } ==> winner
            == current_player_spec(g)),
{
}

} // verus!
