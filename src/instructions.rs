use vstd::prelude::*;

use crate::game::{is_terminal, move_outcome, Game, GameError, State};
use crate::pubkey::Pubkey;

verus! {

/// A token account that a transfer moves stake between.
#[derive(Copy, Clone, Debug)]
pub enum Holder {
    /// The escrow account, which only the program-derived authority signs for.
    Escrow,
    /// The player's own token account, which the player signs for.
    Player { key: Pubkey },
}

/// A token transfer for the custody service to carry out.
#[derive(Copy, Clone, Debug)]
pub struct Transfer {
    pub mint: Pubkey,
    pub from: Holder,
    pub to: Holder,
    pub amount: u64,
}

/// A player's stake going into escrow.
pub open spec fn deposit(g: Game, player: Pubkey) -> Transfer {
    Transfer {
        mint: g.stake_mint,
        from: Holder::Player { key: player },
        to: Holder::Escrow,
        amount: g.stake_amount,
    }
}

/// `amount` going out of escrow to `player`.
pub open spec fn payout(g: Game, player: Pubkey, amount: u64) -> Transfer {
    Transfer { mint: g.stake_mint, from: Holder::Escrow, to: Holder::Player { key: player }, amount }
}

/// Whether acceptance with result `r` took record `before` to `after`: it
/// succeeds exactly on an unaccepted game, which then waits for the creator's
/// first move, and asks for the acceptor's deposit; otherwise nothing changes.
pub open spec fn accept_outcome(before: Game, after: Game, r: Result<Transfer, GameError>) -> bool {
    if before.state is Unaccepted {
        &&& r == Ok::<Transfer, GameError>(deposit(before, before.players[1]))
        &&& after == (Game { state: State::Turn { index: 0 }, ..before })
    } else {
        &&& r == Err::<Transfer, GameError>(GameError::GameAlreadyAccepted)
        &&& after == before
    }
}

/// Creates a game between `player_one`, who moves first, and `player_two`,
/// each to stake `stake_amount` of `stake_mint`. Gives the new record and
/// the creator's deposit; refuses a stake of zero.
pub fn initialize(player_one: Pubkey, player_two: Pubkey, stake_mint: Pubkey, stake_amount: u64) -> (r: Result<(Game, Transfer), GameError>)
    ensures
        stake_amount == 0 ==> r == Err::<(Game, Transfer), GameError>(GameError::ZeroStakeAmount),
        stake_amount > 0 ==> (r matches Ok((g, t)) && {
            &&& g.wf()
            &&& g.players[0] == player_one
            &&& g.players[1] == player_two
            &&& g.stake_mint == stake_mint
            &&& g.stake_amount == stake_amount
            &&& g.state == State::Unaccepted
            &&& g.board_is_empty()
            &&& t == deposit(g, player_one)
        }),
{
    if stake_amount == 0 {
        return Err(GameError::ZeroStakeAmount);
    }
    let game = Game {
        players: [player_one, player_two],
        board: [[None, None, None], [None, None, None], [None, None, None]],
        state: State::Unaccepted,
        stake_mint,
        stake_amount,
    };
    let deposit = Transfer {
        mint: stake_mint,
        from: Holder::Player { key: player_one },
        to: Holder::Escrow,
        amount: stake_amount,
    };
    Ok((game, deposit))
}

/// The second player accepts the game: it moves to the creator's turn, and
/// the acceptor's deposit is asked for. A game is accepted once only.
pub fn accept(game: &mut Game) -> (r: Result<Transfer, GameError>)
    requires
        old(game).wf(),
    ensures
        final(game).wf(),
        accept_outcome(*old(game), *final(game), r),
{
    if let State::Unaccepted = game.state {
        game.state = State::Turn { index: 0 };
        Ok(
            Transfer {
                mint: game.stake_mint,
                from: Holder::Player { key: game.players[1] },
                to: Holder::Escrow,
                amount: game.stake_amount,
            },
        )
    } else {
        Err(GameError::GameAlreadyAccepted)
    }
}

/// `player` marks the tile at `row`, `col`; see `Game::play`.
pub fn play(game: &mut Game, player: Pubkey, row: u8, col: u8) -> (r: Result<(), GameError>)
    requires
        old(game).wf(),
    ensures
        final(game).wf(),
        move_outcome(*old(game), *final(game), player, row as int, col as int, r),
{
    game.play(player, row, col)
}

/// Settles an ended game: on a draw each player's stake goes back to them;
/// on a win both stakes go to the winner. A game still open is refused.
/// The record is to be discarded once the transfers are made.
pub fn close(game: &Game) -> (r: Result<Vec<Transfer>, GameError>)
    requires
        game.wf(),
        game.state is Over ==> 2 * game.stake_amount <= u64::MAX,
    ensures
        !is_terminal(game.state) ==> r == Err::<Vec<Transfer>, GameError>(GameError::GameNotCompleted),
        game.state is Draw ==> (r matches Ok(v) && v@ == seq![
            payout(*game, game.players[0], game.stake_amount),
            payout(*game, game.players[1], game.stake_amount),
        ]),
        game.state matches State::Over { winner } ==> (r matches Ok(v) && v@ == seq![
            payout(*game, winner, (2 * game.stake_amount) as u64),
        ]),
{
    match game.state {
        State::Draw => {
            let mut v: Vec<Transfer> = Vec::new();
            v.push(Transfer {
                mint: game.stake_mint,
                from: Holder::Escrow,
                to: Holder::Player { key: game.players[0] },
                amount: game.stake_amount,
            });
            v.push(Transfer {
                mint: game.stake_mint,
                from: Holder::Escrow,
                to: Holder::Player { key: game.players[1] },
                amount: game.stake_amount,
            });
            Ok(v)
        },
        State::Over { winner } => {
            let receiver = if winner == game.players[0] {
                game.players[0]
            } else {
                game.players[1]
            };
            let mut v: Vec<Transfer> = Vec::new();
            v.push(Transfer {
                mint: game.stake_mint,
                from: Holder::Escrow,
                to: Holder::Player { key: receiver },
                amount: 2 * game.stake_amount,
            });
            Ok(v)
        },
        _ => Err(GameError::GameNotCompleted),
    }
}

} // verus!
