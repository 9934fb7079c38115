//! Options for the game's environments.
//!
//! The environments themselves — scene creation, drawing, deletion — live in
//! the host around the library. The library holds the pure configuration
//! that controls what the debug overlay shows.

use vstd::prelude::*;
use crate::components::MouseHoverVisibility;

verus! {

/// Holds options related to showing the debug environment.
#[derive(Copy, Clone, Debug, PartialEq, Eq, Structural)]
pub struct DebugOptions {
    /// Shows the interior lines that form the grid, e.g. the # shape.
    pub grid: bool,
    /// Shows the outer border of the grid.
    pub border: bool,
    /// Shows the X and O marks.
    pub marks: bool,
    /// Shows the line drawn through the winning marks.
    pub win_line: bool,
    /// Shows the square center point positions.
    pub center_points: bool,
    /// How to highlight the square currently being hovered over by the
    /// mouse.
    pub mouse_hover: MouseHoverVisibility,
}

impl DebugOptions {
    /// Enables all available debugging options.
    pub fn enable_all() -> (r: Self)
        ensures
            r == (DebugOptions {
                grid: true,
                border: true,
                marks: true,
                win_line: true,
                center_points: true,
                mouse_hover: MouseHoverVisibility::AllPositions,
            }),
    {
        Self {
            grid: true,
            border: true,
            marks: true,
            win_line: true,
            center_points: true,
            mouse_hover: MouseHoverVisibility::AllPositions,
        }
    }

    /// Disables all debugging options.
    pub fn disable_all() -> (r: Self)
        ensures
            r == (DebugOptions {
                grid: false,
                border: false,
                marks: false,
                win_line: false,
                center_points: false,
                mouse_hover: MouseHoverVisibility::Hidden,
            }),
    {
        Self {
            grid: false,
            border: false,
            marks: false,
            win_line: false,
            center_points: false,
            mouse_hover: MouseHoverVisibility::Hidden,
        }
    }
}

impl Default for DebugOptions {
    /// The grid, the marks and the win line shown, with the hover highlight
    /// on free positions.
    fn default() -> (r: Self)
        ensures
            r == (DebugOptions {
                grid: true,
                border: false,
                marks: true,
                win_line: true,
                center_points: false,
                mouse_hover: MouseHoverVisibility::FreePositions,
            }),
    {
        Self {
            grid: true,
            border: false,
            marks: true,
            win_line: true,
            center_points: false,
            mouse_hover: MouseHoverVisibility::FreePositions,
        }
    }
}

} // verus!
