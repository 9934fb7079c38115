//! Contains the game's components.
//!
//! The game consists of entities that each represent a single object. A
//! component represents one aspect of an entity and stores the data related
//! to that aspect.

use vstd::prelude::*;
use crate::grid::Position;
use crate::rules::Difficulty;
use crate::rules::new_opponent;

verus! {

/// The Player component stores if the player is playing as X or as O.
#[derive(Copy, Clone, Debug, PartialEq, Eq, Structural)]
pub enum Player {
    X,
    O,
}

impl Player {
    /// The other, or opposite, of the current player.
    pub open spec fn spec_opposite_player(self) -> Player {
        match self {
            Player::X => Player::O,
            Player::O => Player::X,
        }
    }

    /// Gets the other, or opposite, of the current player.
    pub fn opposite_player(&self) -> (r: Self)
        ensures
            r == self.spec_opposite_player(),
    {
        match self {
            Player::X => Player::O,
            Player::O => Player::X,
        }
    }
}

/// Tag component that indicates the player is local, e.g. using the keyboard
/// and mouse to make mark selections.
#[derive(Copy, Clone, Debug, Default, PartialEq, Eq, Structural)]
pub struct LocalPlayer;

/// The AI component provides the underlying AI opponent to use when
/// selecting positions.
pub struct AiPlayer {
    /// The underlying AI opponent that performs the actual move logic.
    pub ai_opponent: open_ttt_lib::ai::Opponent,
    /// The delay to wait before trying to move into a position, in
    /// nanoseconds.
    ///
    /// The move delay allows the game to simulate the AI taking time to
    /// think of where to place its mark. Otherwise, the AI would instantly
    /// choose a location.
    pub move_delay: u64,
}

impl AiPlayer {
    /// Creates an AI player of the given difficulty with no move delay.
    pub fn new(difficulty: Difficulty) -> (r: Self)
        ensures
            r.move_delay == 0,
    {
        Self { ai_opponent: new_opponent(difficulty), move_delay: 0 }
    }
}

/// The Mark component indicates the owner of a given position on the board.
#[derive(Copy, Clone, Debug, PartialEq, Eq, Structural)]
pub struct Mark {
    /// The owner of the mark.
    pub owner: Player,
    /// The position of the mark.
    pub position: Position,
}

/// Indicates when the mouse hover graphics should be shown.
#[derive(Copy, Clone, Debug, PartialEq, Eq, Structural)]
pub enum MouseHoverVisibility {
    /// Do not show the mouse hover.
    Hidden,
    /// Show the mouse hover only when the given position is free to move
    /// into.
    FreePositions,
    /// Show the mouse hover for all valid positions.
    AllPositions,
}

} // verus!
