//! Move-notation translation and game-state synchronization for a
//! human-vs-engine chess session.
//!
//! The crate resolves move text (algebraic or coordinate notation) against
//! the legal-move set of the current position, keeps the authoritative game
//! state consistent across both directions of the exchange, and renders the
//! board. Legal-move generation and move application are delegated to the
//! `shakmaty` rules engine through a small trusted interface.

pub mod board;
pub mod laws;
pub mod moves;
pub mod resolver;
pub mod rules;
pub mod session;
pub mod text;

use vstd::prelude::*;

verus! {

} // verus!
