use vstd::prelude::*;

use crate::game::{
    first_line_from, has_empty, is_full, line, move_outcome, owner_of, state_after, symbol_of, Board,
    Game, GameError, State, Symbol,
};
use crate::instructions::{accept_outcome, Transfer};
use crate::pubkey::Pubkey;

verus! {

/// A move by anyone but the player whose turn it is fails with
/// `NotAuthorized` and leaves the board as it was.
pub proof fn lemma_wrong_player_refused(
    before: Game,
    after: Game,
    player: Pubkey,
    row: int,
    col: int,
    r: Result<(), GameError>,
)
    requires
        before.wf(),
        before.state matches State::Turn { index } && player != before.players[index as int],
        move_outcome(before, after, player, row, col, r),
    ensures
        r == Err::<(), GameError>(GameError::NotAuthorized),
        after.board == before.board,
{
}

/// Once a move has marked a tile, a move on the same tile by the next player
/// to move fails with `TileAlreadyTaken`.
pub proof fn lemma_tile_taken_twice(
    g0: Game,
    g1: Game,
    g2: Game,
    first: Pubkey,
    second: Pubkey,
    row: int,
    col: int,
    r1: Result<(), GameError>,
    r2: Result<(), GameError>,
)
    requires
        g0.wf(),
        move_outcome(g0, g1, first, row, col, r1),
        r1 is Ok,
        g1.state matches State::Turn { index } && second == g1.players[index as int],
        move_outcome(g1, g2, second, row, col, r2),
    ensures
        r2 == Err::<(), GameError>(GameError::TileAlreadyTaken),
{
    assert(g1.board[row][col] is Some);
}

/// A legal move turns exactly one unmarked tile into a marked one and
/// leaves every other tile as it was.
pub proof fn lemma_move_marks_one_tile(
    before: Game,
    after: Game,
    player: Pubkey,
    row: int,
    col: int,
    r: Result<(), GameError>,
)
    requires
        before.wf(),
        move_outcome(before, after, player, row, col, r),
        r is Ok,
    ensures
        0 <= row < 3 && 0 <= col < 3,
        before.board[row][col] is None,
        after.board[row][col] is Some,
        forall|p: int, q: int|
            0 <= p < 3 && 0 <= q < 3 && !(p == row && q == col) ==> after.board[p][q]
                == before.board[p][q],
{
    assert(after.board[row][col] == Some(symbol_of(before.state->index as int)));
}

proof fn lemma_first_line_is(b: Board, j: int, k: int, s: Symbol)
    requires
        0 <= j <= k < 8,
        line(b, k) == Some(s),
        forall|i: int| 0 <= i < 8 ==> line(b, i) is None || line(b, i) == Some(s),
    ensures
        first_line_from(b, j) == Some(s),
    decreases k - j,
{
    if line(b, j) is None {
        lemma_first_line_is(b, j + 1, k, s);
    }
}

/// A board on which one of the eight lines holds three of symbol `s`, and no
/// line holds three of the other symbol, ends the game in a win for the
/// owner of `s`, whoever moved last.
pub proof fn lemma_completed_line_wins(b: Board, players: [Pubkey; 2], mover: int, k: int, s: Symbol)
    requires
        0 <= k < 8,
        line(b, k) == Some(s),
        forall|i: int| 0 <= i < 8 ==> line(b, i) is None || line(b, i) == Some(s),
    ensures
        state_after(b, players, mover) == (State::Over { winner: owner_of(players, s) }),
{
    lemma_first_line_is(b, 0, k, s);
}

/// A legal move that completes a line, on a board where no line was
/// complete, wins the game for the player who made it.
pub proof fn lemma_completing_move_wins(
    before: Game,
    after: Game,
    player: Pubkey,
    row: int,
    col: int,
    r: Result<(), GameError>,
    k: int,
)
    requires
        before.wf(),
        move_outcome(before, after, player, row, col, r),
        r is Ok,
        forall|i: int| 0 <= i < 8 ==> line(before.board, i) is None,
        0 <= k < 8,
        line(after.board, k) is Some,
    ensures
        after.state == (State::Over { winner: player }),
{
    let index = before.state->index as int;
    let s = symbol_of(index);
    let b = before.board;
    let a = after.board;
    assert forall|i: int| 0 <= i < 8 implies line(a, i) is None || line(a, i) == Some(s) by {
        assert(a[0][0] == if row == 0 && col == 0 { Some(s) } else { b[0][0] });
        assert(a[0][1] == if row == 0 && col == 1 { Some(s) } else { b[0][1] });
        assert(a[0][2] == if row == 0 && col == 2 { Some(s) } else { b[0][2] });
        assert(a[1][0] == if row == 1 && col == 0 { Some(s) } else { b[1][0] });
        assert(a[1][1] == if row == 1 && col == 1 { Some(s) } else { b[1][1] });
        assert(a[1][2] == if row == 1 && col == 2 { Some(s) } else { b[1][2] });
        assert(a[2][0] == if row == 2 && col == 0 { Some(s) } else { b[2][0] });
        assert(a[2][1] == if row == 2 && col == 1 { Some(s) } else { b[2][1] });
        assert(a[2][2] == if row == 2 && col == 2 { Some(s) } else { b[2][2] });
        assert(line(b, i) is None);
    }
    let t = line(a, k)->0;
    lemma_completed_line_wins(a, after.players, index, k, t);
    assert(player == before.players[index]);
}

/// A full board on which no line is complete ends the game in a draw.
pub proof fn lemma_full_board_draws(b: Board, players: [Pubkey; 2], mover: int)
    requires
        is_full(b),
        forall|i: int| 0 <= i < 8 ==> line(b, i) is None,
    ensures
        state_after(b, players, mover) == State::Draw,
{
    lemma_no_line(b, 0);
    assert(!has_empty(b));
}

proof fn lemma_no_line(b: Board, j: int)
    requires
        0 <= j <= 8,
        forall|i: int| 0 <= i < 8 ==> line(b, i) is None,
    ensures
        first_line_from(b, j) is None,
    decreases 8 - j,
{
    if j < 8 {
        lemma_no_line(b, j + 1);
    }
}

/// A game is accepted once: after one acceptance succeeds, another fails
/// with `GameAlreadyAccepted`.
pub proof fn lemma_accept_once(
    g0: Game,
    g1: Game,
    g2: Game,
    r1: Result<Transfer, GameError>,
    r2: Result<Transfer, GameError>,
)
    requires
        accept_outcome(g0, g1, r1),
        r1 is Ok,
        accept_outcome(g1, g2, r2),
    ensures
        r2 == Err::<Transfer, GameError>(GameError::GameAlreadyAccepted),
        g2 == g1,
{
}

/// Moves never take an accepted game back to waiting for acceptance, so
/// acceptance fails however many moves came after the first one.
pub proof fn lemma_moves_keep_accepted(
    before: Game,
    after: Game,
    player: Pubkey,
    row: int,
    col: int,
    r: Result<(), GameError>,
)
    requires
        before.wf(),
        !(before.state is Unaccepted),
        move_outcome(before, after, player, row, col, r),
    ensures
        !(after.state is Unaccepted),
{
}

} // verus!
