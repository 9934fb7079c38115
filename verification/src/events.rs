//! Holds types used in the game's event system.
//!
//! This includes input bindings and game specific events.

use vstd::prelude::*;
use crate::components::Player;
use crate::grid::Position;

verus! {

/// Events caused by player actions.
#[derive(Copy, Clone, Debug, PartialEq, Eq, Structural)]
pub enum PlayerEvent {
    /// A player requests a mark be placed at the indicated position.
    RequestMark(Player, Position),
}

/// Inputs for specific actions / button presses.
#[derive(Copy, Clone, Debug, Hash, PartialEq, Eq, Structural)]
pub enum ActionBinding {
    /// Places the mark at the indicated row and column.
    PlaceMark(i32, i32),
    /// Requests a mark be placed at the current mouse pointer position.
    PlaceMarkAtMouse,
}

} // verus!
