//! A two-party Rock-Paper-Scissors game secured by a commit-reveal scheme.
//!
//! Each player submits a cryptographic commitment (a SHA3-256 hex digest of
//! `move_selector || nonce`) before either move is known, then later reveals
//! the selector and nonce; the challenge verifies the reveal against the
//! stored commitment and, once both sides have revealed, resolves the winner
//! by the fixed dominance relation Rock > Scissors > Paper > Rock.

pub mod challenge;
pub mod laws;
pub mod moves;

pub use challenge::{Challenge, ChallengeView, Error, Mapper, OpponentSlot, WinnerOutcome};
pub use moves::{Move, MoveType, MoveView};
