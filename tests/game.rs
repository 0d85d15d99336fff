use tic_tac_toe::{accept, close, initialize, play, Game, GameError, Holder, Pubkey, State, Symbol, Transfer};

fn key(b: u8) -> Pubkey {
    Pubkey::new([b; 32])
}

fn alice() -> Pubkey {
    key(1)
}

fn bob() -> Pubkey {
    key(2)
}

fn mint() -> Pubkey {
    key(9)
}

fn accepted_game(amount: u64) -> Game {
    let (mut g, _) = initialize(alice(), bob(), mint(), amount).unwrap();
    accept(&mut g).unwrap();
    g
}

fn assert_payout(t: &Transfer, to: Pubkey, amount: u64) {
    assert!(t.mint == mint());
    assert!(matches!(t.from, Holder::Escrow));
    match t.to {
        Holder::Player { key } => assert!(key == to),
        Holder::Escrow => panic!("transfer back into escrow"),
    }
    assert_eq!(t.amount, amount);
}

#[test]
fn initialize_creates_unaccepted_game_with_empty_board() {
    let (g, t) = initialize(alice(), bob(), mint(), 500).unwrap();
    assert_eq!(g.state, State::Unaccepted);
    assert!(g.board.iter().all(|row| row.iter().all(|c| c.is_none())));
    assert!(g.players[0] == alice());
    assert!(g.players[1] == bob());
    assert!(g.stake_mint == mint());
    assert_eq!(g.stake_amount, 500);
    assert!(t.mint == mint());
    assert!(matches!(t.from, Holder::Player { key } if key == alice()));
    assert!(matches!(t.to, Holder::Escrow));
    assert_eq!(t.amount, 500);
}

#[test]
fn initialize_rejects_zero_stake() {
    let r = initialize(alice(), bob(), mint(), 0);
    assert!(matches!(r, Err(GameError::ZeroStakeAmount)));
}

#[test]
fn accept_starts_first_players_turn_and_takes_deposit() {
    let (mut g, _) = initialize(alice(), bob(), mint(), 7).unwrap();
    let t = accept(&mut g).unwrap();
    assert_eq!(g.state, State::Turn { index: 0 });
    assert!(matches!(t.from, Holder::Player { key } if key == bob()));
    assert!(matches!(t.to, Holder::Escrow));
    assert_eq!(t.amount, 7);
}

#[test]
fn accept_twice_fails() {
    let (mut g, _) = initialize(alice(), bob(), mint(), 7).unwrap();
    assert!(accept(&mut g).is_ok());
    let before = g;
    assert_eq!(accept(&mut g).unwrap_err(), GameError::GameAlreadyAccepted);
    assert_eq!(g.state, before.state);
    play(&mut g, alice(), 0, 0).unwrap();
    assert_eq!(accept(&mut g).unwrap_err(), GameError::GameAlreadyAccepted);
}

#[test]
fn play_before_accept_fails() {
    let (mut g, _) = initialize(alice(), bob(), mint(), 7).unwrap();
    assert_eq!(play(&mut g, alice(), 0, 0), Err(GameError::UnacceptedGame));
    assert!(g.board[0][0].is_none());
}

#[test]
fn play_by_wrong_player_is_not_authorized() {
    let mut g = accepted_game(7);
    assert_eq!(play(&mut g, bob(), 1, 1), Err(GameError::NotAuthorized));
    assert_eq!(play(&mut g, key(3), 1, 1), Err(GameError::NotAuthorized));
    assert!(g.board.iter().all(|row| row.iter().all(|c| c.is_none())));
    play(&mut g, alice(), 1, 1).unwrap();
    assert_eq!(play(&mut g, alice(), 0, 0), Err(GameError::NotAuthorized));
    assert!(g.board[0][0].is_none());
    assert_eq!(g.state, State::Turn { index: 1 });
}

#[test]
fn play_outside_board_is_invalid_tile() {
    let mut g = accepted_game(7);
    assert_eq!(play(&mut g, alice(), 3, 0), Err(GameError::InvalidTile));
    assert_eq!(play(&mut g, alice(), 0, 3), Err(GameError::InvalidTile));
    assert_eq!(play(&mut g, alice(), 255, 255), Err(GameError::InvalidTile));
    assert_eq!(g.state, State::Turn { index: 0 });
}

#[test]
fn play_same_tile_twice_is_taken() {
    let mut g = accepted_game(7);
    play(&mut g, alice(), 2, 1).unwrap();
    assert_eq!(play(&mut g, bob(), 2, 1), Err(GameError::TileAlreadyTaken));
    assert_eq!(g.board[2][1], Some(Symbol::X));
    assert_eq!(g.state, State::Turn { index: 1 });
}

#[test]
fn play_marks_exactly_one_tile() {
    let mut g = accepted_game(7);
    play(&mut g, alice(), 0, 0).unwrap();
    let before = g.board;
    play(&mut g, bob(), 1, 2).unwrap();
    for r in 0..3 {
        for c in 0..3 {
            if (r, c) == (1, 2) {
                assert_eq!(g.board[r][c], Some(Symbol::O));
            } else {
                assert_eq!(g.board[r][c], before[r][c]);
            }
        }
    }
    assert_eq!(g.state, State::Turn { index: 0 });
}

fn win_on_line(cells: [(u8, u8); 3], mover: usize) {
    let mut g = accepted_game(7);
    let s = if mover == 0 { Symbol::X } else { Symbol::O };
    g.board[cells[0].0 as usize][cells[0].1 as usize] = Some(s);
    g.board[cells[1].0 as usize][cells[1].1 as usize] = Some(s);
    g.state = State::Turn { index: mover as u8 };
    let who = g.players[mover];
    play(&mut g, who, cells[2].0, cells[2].1).unwrap();
    assert_eq!(g.state, State::Over { winner: who });
}

#[test]
fn every_line_wins() {
    let lines: [[(u8, u8); 3]; 8] = [
        [(0, 0), (0, 1), (0, 2)],
        [(1, 0), (1, 1), (1, 2)],
        [(2, 0), (2, 1), (2, 2)],
        [(0, 0), (1, 0), (2, 0)],
        [(0, 1), (1, 1), (2, 1)],
        [(0, 2), (1, 2), (2, 2)],
        [(0, 0), (1, 1), (2, 2)],
        [(0, 2), (1, 1), (2, 0)],
    ];
    for l in lines.iter() {
        win_on_line(*l, 0);
        win_on_line(*l, 1);
        win_on_line([l[2], l[0], l[1]], 0);
    }
}

#[test]
fn first_row_win_scenario() {
    let mut g = accepted_game(100);
    play(&mut g, alice(), 0, 0).unwrap();
    play(&mut g, bob(), 1, 1).unwrap();
    play(&mut g, alice(), 0, 1).unwrap();
    play(&mut g, bob(), 2, 2).unwrap();
    assert_eq!(g.state, State::Turn { index: 0 });
    play(&mut g, alice(), 0, 2).unwrap();
    assert_eq!(g.state, State::Over { winner: alice() });
    assert_eq!(play(&mut g, bob(), 2, 0), Err(GameError::GameAlreadyCompleted));
    let v = close(&g).unwrap();
    assert_eq!(v.len(), 1);
    assert_payout(&v[0], alice(), 200);
}

#[test]
fn second_player_win_pays_second_player() {
    let mut g = accepted_game(40);
    play(&mut g, alice(), 0, 0).unwrap();
    play(&mut g, bob(), 1, 0).unwrap();
    play(&mut g, alice(), 0, 1).unwrap();
    play(&mut g, bob(), 1, 1).unwrap();
    play(&mut g, alice(), 2, 2).unwrap();
    play(&mut g, bob(), 1, 2).unwrap();
    assert_eq!(g.state, State::Over { winner: bob() });
    let v = close(&g).unwrap();
    assert_eq!(v.len(), 1);
    assert_payout(&v[0], bob(), 80);
}

#[test]
fn full_board_without_line_is_draw_and_refunds_both() {
    let mut g = accepted_game(25);
    let moves: [(u8, u8); 9] = [(0, 0), (0, 1), (0, 2), (1, 1), (1, 0), (1, 2), (2, 1), (2, 0), (2, 2)];
    for (i, (r, c)) in moves.iter().enumerate() {
        assert!(close(&g).is_err());
        let who = if i % 2 == 0 { alice() } else { bob() };
        play(&mut g, who, *r, *c).unwrap();
    }
    assert_eq!(g.state, State::Draw);
    assert_eq!(play(&mut g, alice(), 0, 0), Err(GameError::GameAlreadyCompleted));
    let v = close(&g).unwrap();
    assert_eq!(v.len(), 2);
    assert_payout(&v[0], alice(), 25);
    assert_payout(&v[1], bob(), 25);
}

#[test]
fn close_before_end_is_not_completed() {
    let (g, _) = initialize(alice(), bob(), mint(), 5).unwrap();
    assert_eq!(close(&g).unwrap_err(), GameError::GameNotCompleted);
    let mut g = accepted_game(5);
    assert_eq!(close(&g).unwrap_err(), GameError::GameNotCompleted);
    let moves: [(u8, u8); 8] = [(0, 0), (0, 1), (0, 2), (1, 1), (1, 0), (1, 2), (2, 1), (2, 0)];
    for (i, (r, c)) in moves.iter().enumerate() {
        let who = if i % 2 == 0 { alice() } else { bob() };
        play(&mut g, who, *r, *c).unwrap();
        assert_eq!(close(&g).unwrap_err(), GameError::GameNotCompleted);
    }
    assert_eq!(g.state, State::Turn { index: 0 });
}

#[test]
fn game_method_play_matches_instruction() {
    let mut g = accepted_game(3);
    assert_eq!(g.play(alice(), 1, 1), Ok(()));
    assert_eq!(g.board[1][1], Some(Symbol::X));
    assert_eq!(g.play(bob(), 1, 1), Err(GameError::TileAlreadyTaken));
}

#[test]
fn keys_compare_by_bytes() {
    let mut b = [4u8; 32];
    assert!(Pubkey::new(b) == key(4));
    b[31] = 5;
    assert!(Pubkey::new(b) != key(4));
    assert_eq!(State::default(), State::Unaccepted);
    assert_ne!(State::Over { winner: alice() }, State::Over { winner: bob() });
}

#[test]
fn well_formedness_checks_turn_and_winner() {
    let mut g = accepted_game(3);
    assert!(g.is_well_formed());
    g.state = State::Turn { index: 2 };
    assert!(!g.is_well_formed());
    g.state = State::Over { winner: key(3) };
    assert!(!g.is_well_formed());
    g.state = State::Over { winner: bob() };
    assert!(g.is_well_formed());
}
