//! A two-player tic-tac-toe game with escrowed stakes.
//!
//! Each player stakes the same amount of one token; the winner takes both
//! stakes, and a draw returns each stake to its depositor. The game record,
//! the move rules and the settlement are verified; moving tokens is left to
//! the caller, which carries out the transfers that the library describes.

pub mod game;
pub mod instructions;
pub mod laws;
pub mod pubkey;

pub use game::{Board, Game, GameError, State, Symbol};
pub use instructions::{accept, close, initialize, play, Holder, Transfer};
pub use pubkey::Pubkey;
