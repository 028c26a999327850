//! Rules of a staked five-by-five line game: accounts register with a stake
//! and a marker, the game is activated, players write their markers on the
//! board, the first registered owner of a full row or column wins, and the
//! winner may claim the pooled stake.
//!
//! The session is a state machine over plain values. Who is calling, what
//! stake came with a call and what the session holds are handed in by the
//! caller; a reward claim answers with the amount to transfer.

use vstd::prelude::*;

pub mod account;
pub mod board;
pub mod laws;
pub mod render;
pub mod session;

pub use account::AccountId;
pub use session::{Error, Fault, GameState, TicTacToe};

verus! {

/// Smallest stake that admits a player.
pub const MIN_STAKE: u128 = 1000;

} // verus!
