use vstd::prelude::*;

use crate::pubkey::Pubkey;

verus! {

/// The mark left on a tile: `X` for the player who created the game, `O` for
/// the player who accepted it.
#[derive(Copy, Clone, Debug, PartialEq, Eq, Structural)]
pub enum Symbol {
    X,
    O,
}

/// Where a game stands.
#[derive(Copy, Clone, Debug)]
pub enum State {
    /// Created; the second player has not staked yet.
    Unaccepted,
    /// In play; `index` names the player to move.
    Turn { index: u8 },
    /// Every tile is marked and no line is complete.
    Draw,
    /// A line of three holds one symbol; `winner` is its owner.
    Over { winner: Pubkey },
}

impl PartialEq for State {
    fn eq(&self, o: &State) -> (r: bool)
        ensures
            r == (*self == *o),
    {
        match (self, o) {
            (State::Unaccepted, State::Unaccepted) => true,
            (State::Turn { index: a }, State::Turn { index: b }) => *a == *b,
            (State::Draw, State::Draw) => true,
            (State::Over { winner: a }, State::Over { winner: b }) => a == b,
            _ => false,
        }
    }
}

impl vstd::std_specs::cmp::PartialEqSpecImpl for State {
    open spec fn obeys_eq_spec() -> bool {
        true
    }

    open spec fn eq_spec(&self, o: &State) -> bool {
        *self == *o
    }
}

impl Eq for State {
}

impl Default for State {
    fn default() -> (r: State)
        ensures
            r == State::Unaccepted,
    {
        State::Unaccepted
    }
}

/// Why an operation on a game was refused.
#[derive(Copy, Clone, Debug, PartialEq, Eq, Structural)]
pub enum GameError {
    /// A game was created with a stake of zero.
    ZeroStakeAmount,
    /// The caller is not the player entitled to act.
    NotAuthorized,
    /// A move came before the second player accepted.
    UnacceptedGame,
    /// A game was accepted a second time.
    GameAlreadyAccepted,
    /// A move came after the game ended.
    GameAlreadyCompleted,
    /// A game was closed before it ended.
    GameNotCompleted,
    /// A row or column outside the board.
    InvalidTile,
    /// A tile that is already marked.
    TileAlreadyTaken,
}

/// The three-by-three board, row by row.
pub type Board = [[Option<Symbol>; 3]; 3];

/// The record of one game.
#[derive(Copy, Clone, Debug)]
pub struct Game {
    /// The creator (index 0, moves first) and the acceptor (index 1).
    pub players: [Pubkey; 2],
    pub board: Board,
    pub state: State,
    /// The token that both players stake.
    pub stake_mint: Pubkey,
    /// What each player stakes.
    pub stake_amount: u64,
}

/// The symbol that the player with this index marks.
pub open spec fn symbol_of(index: int) -> Symbol {
    if index == 0 {
        Symbol::X
    } else {
        Symbol::O
    }
}

/// The player who owns a symbol.
pub open spec fn owner_of(players: [Pubkey; 2], s: Symbol) -> Pubkey {
    match s {
        Symbol::X => players[0],
        Symbol::O => players[1],
    }
}

/// The symbol that fills all three tiles, if they hold one and the same.
pub open spec fn triple(a: Option<Symbol>, b: Option<Symbol>, c: Option<Symbol>) -> Option<Symbol> {
    if a is Some && b == a && c == a {
        a
    } else {
        None
    }
}

/// Line `k` of the board: rows 0 to 2 for `k < 3`, then columns 0 to 2, then
/// the diagonal from the top left, then the one from the top right.
pub open spec fn line(b: Board, k: int) -> Option<Symbol> {
    if 0 <= k < 3 {
        triple(b[k][0], b[k][1], b[k][2])
    } else if 3 <= k < 6 {
        triple(b[0][k - 3], b[1][k - 3], b[2][k - 3])
    } else if k == 6 {
        triple(b[0][0], b[1][1], b[2][2])
    } else if k == 7 {
        triple(b[0][2], b[1][1], b[2][0])
    } else {
        None
    }
}

/// The symbol of the first complete line among lines `k` to 7.
pub open spec fn first_line_from(b: Board, k: int) -> Option<Symbol>
    decreases 8 - k,
{
    if k >= 8 || k < 0 {
        None
    } else if line(b, k) is Some {
        line(b, k)
    } else {
        first_line_from(b, k + 1)
    }
}

/// The symbol of the first complete line, in the order rows, columns,
/// diagonals.
pub open spec fn winning_symbol(b: Board) -> Option<Symbol> {
    first_line_from(b, 0)
}

/// Whether some tile is still unmarked.
pub open spec fn has_empty(b: Board) -> bool {
    exists|r: int, c: int| 0 <= r < 3 && 0 <= c < 3 && b[r][c] is None
}

/// Whether every tile is marked.
pub open spec fn is_full(b: Board) -> bool {
    forall|r: int, c: int| 0 <= r < 3 && 0 <= c < 3 ==> b[r][c] is Some
}

/// The state that follows a move by player `mover` that left board `b`.
pub open spec fn state_after(b: Board, players: [Pubkey; 2], mover: int) -> State {
    match winning_symbol(b) {
        Some(s) => State::Over { winner: owner_of(players, s) },
        None => if has_empty(b) {
            State::Turn { index: ((mover + 1) % 2) as u8 }
        } else {
            State::Draw
        },
    }
}

/// Whether board `after` is board `before` with the tile at `row`, `col`
/// marked `s` and every other tile as it was.
pub open spec fn marks_one(before: Board, after: Board, row: int, col: int, s: Symbol) -> bool {
    forall|r: int, c: int|
        0 <= r < 3 && 0 <= c < 3 ==> #[trigger] after[r][c] == if r == row && c == col {
            Some(s)
        } else {
            before[r][c]
        }
}

/// Whether the state has ended the game.
pub open spec fn is_terminal(s: State) -> bool {
    s is Draw || s is Over
}

/// The first rule that a move by `player` on `row`, `col` breaks, checked in
/// this order: the game is in play, `player` is the one to move, the tile is
/// on the board, the tile is unmarked. `None` when the move is legal.
pub open spec fn move_error(g: Game, player: Pubkey, row: int, col: int) -> Option<GameError> {
    match g.state {
        State::Unaccepted => Some(GameError::UnacceptedGame),
        State::Turn { index } => if player != g.players[index as int] {
            Some(GameError::NotAuthorized)
        } else if !(0 <= row < 3 && 0 <= col < 3) {
            Some(GameError::InvalidTile)
        } else if g.board[row][col] is Some {
            Some(GameError::TileAlreadyTaken)
        } else {
            None
        },
        _ => Some(GameError::GameAlreadyCompleted),
    }
}

/// Whether a move by `player` on `row`, `col` with result `r` took record
/// `before` to record `after`: a broken rule is reported and changes nothing;
/// a legal move marks the tile with the mover's symbol, changes no other
/// tile, and sets the state that follows.
pub open spec fn move_outcome(
    before: Game,
    after: Game,
    player: Pubkey,
    row: int,
    col: int,
    r: Result<(), GameError>,
) -> bool {
    match move_error(before, player, row, col) {
        Some(e) => r == Err::<(), GameError>(e) && after == before,
        None => {
            &&& r is Ok
            &&& before.state matches State::Turn { index }
            &&& marks_one(before.board, after.board, row, col, symbol_of(index as int))
            &&& after.state == state_after(after.board, after.players, index as int)
            &&& after.same_terms(&before)
        },
    }
}

/// Where no line among `j` to `k - 1` is complete, the search for the first
/// complete line gives the same from `j` as from `k`.
proof fn lemma_skip_lines(b: Board, j: int, k: int)
    requires
        0 <= j <= k <= 8,
        forall|i: int| j <= i < k ==> line(b, i) is None,
    ensures
        first_line_from(b, j) == first_line_from(b, k),
    decreases k - j,
{
    if j < k {
        lemma_skip_lines(b, j + 1, k);
    }
}

impl Game {
    /// The record's invariant: a turn names one of the two players, and a
    /// winner is one of them.
    pub open spec fn wf(&self) -> bool {
        &&& (self.state matches State::Turn { index } ==> index < 2)
        &&& (self.state matches State::Over { winner } ==> winner == self.players[0]
            || winner == self.players[1])
    }

    /// The board with no tile marked.
    pub open spec fn board_is_empty(&self) -> bool {
        forall|r: int, c: int| 0 <= r < 3 && 0 <= c < 3 ==> self.board[r][c] is None
    }

    /// Whether two records agree on everything that never changes: the
    /// players, the mint and the stake.
    pub open spec fn same_terms(&self, o: &Game) -> bool {
        &&& self.players == o.players
        &&& self.stake_mint == o.stake_mint
        &&& self.stake_amount == o.stake_amount
    }

    /// Checks the record's invariant, for records that come from storage.
    pub fn is_well_formed(&self) -> (r: bool)
        ensures
            r == self.wf(),
    {
        match self.state {
            State::Turn { index } => index < 2,
            State::Over { winner } => winner == self.players[0] || winner == self.players[1],
            _ => true,
        }
    }

    /// Marks the tile at `row`, `col` for `player` and moves the game on:
    /// to a win when a line is complete, else to a draw when the board is
    /// full, else to the other player's turn.
    pub fn play(&mut self, player: Pubkey, row: u8, col: u8) -> (r: Result<(), GameError>)
        requires
            old(self).wf(),
        ensures
            final(self).wf(),
            final(self).same_terms(old(self)),
            move_outcome(*old(self), *final(self), player, row as int, col as int, r),
    {
        let current_player: u8;
        if let State::Turn { index } = self.state {
            if player != self.players[index as usize] {
                return Err(GameError::NotAuthorized);
            }
            current_player = index;
        } else {
            if let State::Unaccepted = self.state {
                return Err(GameError::UnacceptedGame);
            }
            return Err(GameError::GameAlreadyCompleted);
        }
        if !(row < 3 && col < 3) {
            return Err(GameError::InvalidTile);
        }
        if self.board[row as usize][col as usize].is_some() {
            return Err(GameError::TileAlreadyTaken);
        }
        let mark = if current_player == 0 {
            Symbol::X
        } else {
            Symbol::O
        };
        self.board[row as usize][col as usize] = Some(mark);
        self.update_state(current_player);
        Ok(())
    }

    /// Sets the state that follows a move by `current_player`: the owner of
    /// the first complete line wins; else the other player moves while a tile
    /// is unmarked; else the game is drawn.
    fn update_state(&mut self, current_player: u8)
        requires
            current_player < 2,
        ensures
            final(self).players == old(self).players,
            final(self).board == old(self).board,
            final(self).stake_mint == old(self).stake_mint,
            final(self).stake_amount == old(self).stake_amount,
            final(self).state == state_after(old(self).board, old(self).players, current_player as int),
    {
        let ghost b = self.board;
        let mut i: usize = 0;
        while i < 3
            invariant
                0 <= i <= 3,
                *self == *old(self),
                b == self.board,
                forall|k: int| 0 <= k < i ==> line(b, k) is None,
            decreases 3 - i,
        {
            let (x, y, z) = (self.board[i][0], self.board[i][1], self.board[i][2]);
            if self.got_winner(x, y, z) {
                proof {
                    lemma_skip_lines(b, 0, i as int);
                }
                return;
            }
            i = i + 1;
        }
        let mut j: usize = 0;
        while j < 3
            invariant
                0 <= j <= 3,
                *self == *old(self),
                b == self.board,
                forall|k: int| 0 <= k < 3 + j ==> line(b, k) is None,
            decreases 3 - j,
        {
            let (x, y, z) = (self.board[0][j], self.board[1][j], self.board[2][j]);
            if self.got_winner(x, y, z) {
                proof {
                    lemma_skip_lines(b, 0, 3 + j as int);
                }
                return;
            }
            j = j + 1;
        }
        let (x, y, z) = (self.board[0][0], self.board[1][1], self.board[2][2]);
        if self.got_winner(x, y, z) {
            proof {
                lemma_skip_lines(b, 0, 6);
            }
            return;
        }
        let (x, y, z) = (self.board[0][2], self.board[1][1], self.board[2][0]);
        if self.got_winner(x, y, z) {
            proof {
                lemma_skip_lines(b, 0, 7);
            }
            return;
        }
        proof {
            lemma_skip_lines(b, 0, 8);
        }
        let mut r: usize = 0;
        while r < 3
            invariant
                0 <= r <= 3,
                current_player < 2,
                *self == *old(self),
                b == self.board,
                winning_symbol(b) is None,
                forall|p: int, q: int| 0 <= p < r && 0 <= q < 3 ==> b[p][q] is Some,
            decreases 3 - r,
        {
            let mut c: usize = 0;
            while c < 3
                invariant
                    0 <= r < 3,
                    0 <= c <= 3,
                    current_player < 2,
                    *self == *old(self),
                    b == self.board,
                    winning_symbol(b) is None,
                    forall|p: int, q: int| 0 <= p < r && 0 <= q < 3 ==> b[p][q] is Some,
                    forall|q: int| 0 <= q < c ==> b[r as int][q] is Some,
                decreases 3 - c,
            {
                if self.board[r][c].is_none() {
                    assert(has_empty(b)) by {
                        assert(b[r as int][c as int] is None);
                    }
                    self.state = State::Turn { index: (current_player + 1) % 2 };
                    return;
                }
                c = c + 1;
            }
            r = r + 1;
        }
        self.state = State::Draw;
    }

    /// Whether the three tiles hold one and the same symbol; if so, the game
    /// is over and the symbol's owner wins.
    fn got_winner(&mut self, first: Option<Symbol>, second: Option<Symbol>, third: Option<Symbol>) -> (r: bool)
        ensures
            r == triple(first, second, third) is Some,
            r ==> *final(self) == (Game {
                state: State::Over { winner: owner_of(old(self).players, triple(first, second, third)->0) },
                ..*old(self)
            }),
            !r ==> *final(self) == *old(self),
    {
        if let (Some(a), Some(b), Some(c)) = (first, second, third) {
            if a == b && a == c {
                let winner = if a == Symbol::X {
                    self.players[0]
                } else {
                    self.players[1]
                };
                self.state = State::Over { winner };
                return true;
            }
        }
        false
    }
}

} // verus!
