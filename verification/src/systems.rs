//! The per-tick decisions of the game's systems.
//!
//! Each system runs once per simulation tick. The decisions they make are
//! functions from plain values (game state, input state, time) to events or
//! updates, and are collected here; performing the resulting actions is left
//! to the host around the library.

use vstd::prelude::*;
use vstd::string::StringExecFns;
use crate::components::AiPlayer;
use crate::components::MouseHoverVisibility;
use crate::components::Player;
use crate::events::ActionBinding;
use crate::events::PlayerEvent;
use crate::grid::Grid;
use crate::grid::Position;
use crate::math::Point3;
use crate::math::ScreenPoint;
use crate::rules::GameLogic;
use crate::rules::GameState;
use crate::rules::opponent_get_move;

verus! {

/// Holds the current mouse position in various coordinate systems.
#[derive(Copy, Clone, Debug, PartialEq, Eq, Structural)]
pub struct MousePosition {
    /// The mouse location in screen coordinates.
    ///
    /// Note: this can be outside the bounds of the screen.
    pub screen: ScreenPoint,
    /// The mouse location in world coordinates.
    pub world: Point3,
    /// The mouse location in terms of the tic-tac-toe board.
    ///
    /// Note: if the mouse is outside the play area, these positions can be
    /// invalid.
    pub grid: Position,
}

impl Default for MousePosition {
    /// All coordinates at zero.
    fn default() -> (r: Self)
        ensures
            r.screen == (ScreenPoint { x: 0, y: 0 }),
            r.world == (Point3 { x: 0, y: 0, z: 0 }),
            r.grid == (Position { row: 0, column: 0 }),
    {
        Self {
            screen: ScreenPoint::new(0, 0),
            world: Point3::new(0, 0, 0),
            grid: Position { row: 0, column: 0 },
        }
    }
}

/// Updates the provided mouse position using freshly projected data: the
/// screen and world points are stored as given, and the grid position is
/// derived from the world point through the grid.
pub fn update_mouse_position(
    mouse_position: &mut MousePosition,
    grid: &Grid,
    screen: ScreenPoint,
    world: Point3,
)
    requires
        grid.wf(),
        world.wf(),
        grid.size >= 3,
    ensures
        final(mouse_position).screen == screen,
        final(mouse_position).world == world,
        final(mouse_position).grid == grid.spec_point_to_position(world),
{
    let grid_position = grid.point_to_position(world);
    mouse_position.screen = screen;
    mouse_position.world = world;
    mouse_position.grid = grid_position;
}

/// Whether at least `move_delay` has elapsed between `last_move_time` and
/// `current_time`. When the clock reads earlier than the last move, the
/// elapsed time saturates at zero instead of wrapping.
pub open spec fn spec_sufficient_delay(
    move_delay: u64,
    last_move_time: u64,
    current_time: u64,
) -> bool {
    (if current_time >= last_move_time {
        current_time - last_move_time
    } else {
        0
    }) >= move_delay
}

/// Indicates if sufficient time has elapsed since the last move for the
/// given AI player to be allowed to act. The boundary is inclusive: an
/// elapsed time equal to the configured delay is sufficient.
pub fn sufficient_delay_since_last_move(
    ai_player: &AiPlayer,
    game_logic: &GameLogic,
    current_time_nanos: u64,
) -> (r: bool)
    ensures
        r == spec_sufficient_delay(
            ai_player.move_delay,
            game_logic.last_move_time,
            current_time_nanos,
        ),
{
    let elapsed: u64 = if current_time_nanos >= game_logic.last_move_time {
        current_time_nanos - game_logic.last_move_time
    } else {
        0
    };
    elapsed >= ai_player.move_delay
}

/// Law: the move-delay gate has an inclusive boundary. With a monotonic
/// clock, an elapsed time equal to the configured delay makes the player
/// eligible, and a smaller elapsed time does not.
pub proof fn lemma_move_delay_gate(move_delay: u64, last_move_time: u64, current_time: u64)
    requires
        current_time >= last_move_time,
    ensures
        current_time - last_move_time == move_delay ==> spec_sufficient_delay(
            move_delay,
            last_move_time,
            current_time,
        ),
        current_time - last_move_time < move_delay ==> !spec_sufficient_delay(
            move_delay,
            last_move_time,
            current_time,
        ),
{
}

/// Generates player events for the AI opponents.
#[derive(Copy, Clone, Debug, Default, PartialEq, Eq, Structural)]
pub struct AiPlayerSystem;

impl AiPlayerSystem {
    /// The decision the system makes for one AI player on one tick: when it
    /// is the player's turn and the configured move delay has elapsed, ask
    /// the opponent for a move and request a mark there. Without a
    /// sufficient delay no event is produced; any event produced is a mark
    /// request by this player at a position on the board.
    pub fn run_player(
        &self,
        player: Player,
        ai_player: &AiPlayer,
        game_logic: &GameLogic,
        current_time_nanos: u64,
    ) -> (r: Option<PlayerEvent>)
        ensures
            !spec_sufficient_delay(
                ai_player.move_delay,
                game_logic.last_move_time,
                current_time_nanos,
            ) ==> r is None,
            r matches Some(PlayerEvent::RequestMark(p, pos)) ==> p == player && 0 <= pos.row
                < 3 && 0 <= pos.column < 3,
    {
        // Check if it is the player's turn first so CPU cycles are not spent
        // evaluating positions that will not be used.
        if game_logic.is_players_move(&player) && sufficient_delay_since_last_move(
            ai_player,
            game_logic,
            current_time_nanos,
        ) {
            match opponent_get_move(&ai_player.ai_opponent, &game_logic.game) {
                Some(position) => Some(PlayerEvent::RequestMark(player, position)),
                None => None,
            }
        } else {
            None
        }
    }
}

/// True when the actions hold the given binding.
pub open spec fn spec_action_down(actions: Seq<ActionBinding>, action: ActionBinding) -> bool {
    exists|i: int| 0 <= i < actions.len() && actions[i] == action
}

/// True when the actions request a mark at the given position.
pub open spec fn spec_requests_mark_at(actions: Seq<ActionBinding>, p: Position) -> bool {
    spec_action_down(actions, ActionBinding::PlaceMark(p.row, p.column))
}

// Indicates if the vector of actions being held down contains the action.
fn contains_action(actions_down: &Vec<ActionBinding>, action: ActionBinding) -> (r: bool)
    ensures
        r == spec_action_down(actions_down@, action),
{
    let mut i: usize = 0;
    while i < actions_down.len()
        invariant
            i <= actions_down@.len(),
            forall|j: int| 0 <= j < i ==> actions_down@[j] != action,
        decreases actions_down@.len() - i,
    {
        if actions_down[i] == action {
            return true;
        }
        i = i + 1;
    }
    false
}

// Converts the provided position to an action binding.
fn position_to_action_binding(position: &Position) -> (r: ActionBinding)
    ensures
        r == ActionBinding::PlaceMark(position.row, position.column),
{
    ActionBinding::PlaceMark(position.row, position.column)
}

/// Checks the board positions in order and requests a mark by the given
/// player at the first position whose place-mark action is being held down;
/// no event results when no position's action is down.
pub fn process_keyboard_input(
    player: Player,
    board_positions: &Vec<Position>,
    actions_down: &Vec<ActionBinding>,
) -> (r: Option<PlayerEvent>)
    ensures
        r is None ==> forall|i: int|
            0 <= i < board_positions@.len() ==> !spec_requests_mark_at(
                actions_down@,
                #[trigger] board_positions@[i],
            ),
        r matches Some(PlayerEvent::RequestMark(p, pos)) ==> p == player && exists|i: int|
            0 <= i < board_positions@.len() && board_positions@[i] == pos
                && spec_requests_mark_at(actions_down@, pos) && forall|j: int|
                0 <= j < i ==> !spec_requests_mark_at(
                    actions_down@,
                    #[trigger] board_positions@[j],
                ),
{
    let mut i: usize = 0;
    while i < board_positions.len()
        invariant
            i <= board_positions@.len(),
            forall|j: int|
                0 <= j < i ==> !spec_requests_mark_at(
                    actions_down@,
                    #[trigger] board_positions@[j],
                ),
        decreases board_positions@.len() - i,
    {
        let position = board_positions[i];
        let request_move_at_position = contains_action(
            actions_down,
            position_to_action_binding(&position),
        );
        if request_move_at_position {
            return Some(PlayerEvent::RequestMark(player, position));
        }
        i = i + 1;
    }
    None
}

/// Requests a mark by the given player at the current mouse grid position
/// exactly when the place-mark-at-mouse action is being held down.
pub fn process_mouse_input(
    player: Player,
    mouse_position: &MousePosition,
    actions_down: &Vec<ActionBinding>,
) -> (r: Option<PlayerEvent>)
    ensures
        spec_action_down(actions_down@, ActionBinding::PlaceMarkAtMouse) ==> r == Some(
            PlayerEvent::RequestMark(player, mouse_position.grid),
        ),
        !spec_action_down(actions_down@, ActionBinding::PlaceMarkAtMouse) ==> r is None,
{
    if contains_action(actions_down, ActionBinding::PlaceMarkAtMouse) {
        Some(PlayerEvent::RequestMark(player, mouse_position.grid))
    } else {
        None
    }
}

/// Responsible for translating mouse clicks and keyboard button presses
/// into player events.
#[derive(Copy, Clone, Debug, Default, PartialEq, Eq, Structural)]
pub struct LocalPlayerSystem;

impl LocalPlayerSystem {
    /// The decision the system makes for one local player on one tick: when
    /// it is the player's turn, the keyboard and the mouse input each may
    /// contribute one mark request. Every event produced is a mark request
    /// by this player.
    pub fn run_player(
        &self,
        player: Player,
        game_logic: &GameLogic,
        mouse_position: &MousePosition,
        actions_down: &Vec<ActionBinding>,
    ) -> (r: Vec<PlayerEvent>)
        ensures
            r@.len() <= 2,
            forall|i: int|
                0 <= i < r@.len() ==> (#[trigger] r@[i] matches PlayerEvent::RequestMark(p, _)
                    && p == player),
    {
        let mut events: Vec<PlayerEvent> = Vec::new();
        // Only allow players whose turn it is to generate player events.
        if game_logic.is_players_move(&player) {
            let board_positions = game_logic.board_positions();
            if let Some(player_event) = process_keyboard_input(
                player,
                &board_positions,
                actions_down,
            ) {
                events.push(player_event);
            }
            if let Some(player_event) = process_mouse_input(
                player,
                mouse_position,
                actions_down,
            ) {
                events.push(player_event);
            }
        }
        events
    }
}

/// The text shown for each state of the game.
pub open spec fn spec_game_state_text(state: GameState) -> Seq<char> {
    match state {
        GameState::PlayerXMove => "X's turn"@,
        GameState::PlayerOMove => "O's turn"@,
        GameState::PlayerXWin(_) => "Game Over: X wins!"@,
        GameState::PlayerOWin(_) => "Game Over: O wins!"@,
        GameState::CatsGame => "Game Over: Cat's game"@,
    }
}

/// Gets the text describing the state of the game.
pub fn game_state_text(state: &GameState) -> (r: &'static str)
    ensures
        r@ == spec_game_state_text(*state),
{
    match state {
        GameState::PlayerXMove => "X's turn",
        GameState::PlayerOMove => "O's turn",
        GameState::PlayerXWin(_) => "Game Over: X wins!",
        GameState::PlayerOWin(_) => "Game Over: O wins!",
        GameState::CatsGame => "Game Over: Cat's game",
    }
}

/// The status line: the given parts followed by the closing text, each part
/// followed by a vertical bar separator.
pub open spec fn spec_status_text(parts: Seq<Seq<char>>, closing: Seq<char>) -> Seq<char>
    decreases parts.len(),
{
    if parts.len() == 0 {
        closing
    } else {
        parts[0] + " | "@ + spec_status_text(parts.drop_first(), closing)
    }
}

/// Updates UI text based on the state of the game.
#[derive(Copy, Clone, Debug, Default, PartialEq, Eq, Structural)]
pub struct GameStateDisplaySystem;

impl GameStateDisplaySystem {
    /// The text the system displays on one tick: the extra information
    /// parts, then the game state text, separated by vertical bars.
    pub fn status_text(&self, extra_information: &Vec<String>, state: &GameState) -> (r:
        String)
        ensures
            r@ == spec_status_text(
                extra_information@.map_values(|s: String| s@),
                spec_game_state_text(*state),
            ),
    {
        let ghost parts = extra_information@.map_values(|s: String| s@);
        let ghost closing = spec_game_state_text(*state);
        let mut text = String::new();
        let mut i: usize = 0;
        proof {
            assert(parts.skip(0) =~= parts);
            assert(text@ + spec_status_text(parts, closing) =~= spec_status_text(
                parts,
                closing,
            ));
        }
        while i < extra_information.len()
            invariant
                i <= extra_information@.len(),
                parts == extra_information@.map_values(|s: String| s@),
                spec_status_text(parts, closing) == text@ + spec_status_text(
                    parts.skip(i as int),
                    closing,
                ),
            decreases extra_information@.len() - i,
        {
            let ghost old_text = text@;
            let ghost i0 = i as int;
            text.append(extra_information[i].as_str());
            text.append(" | ");
            proof {
                assert(parts.skip(i0).drop_first() =~= parts.skip(i0 + 1));
                assert(parts.skip(i0)[0] == parts[i0]);
                assert(text@ =~= old_text + parts[i0] + " | "@);
                assert(text@ + spec_status_text(parts.skip(i0 + 1), closing) =~= old_text
                    + spec_status_text(parts.skip(i0), closing));
            }
            i = i + 1;
        }
        proof {
            assert(parts.skip(i as int) =~= Seq::<Seq<char>>::empty());
        }
        text.append(game_state_text(state));
        text
    }
}

/// Responsible for drawing a debug box around the hovered square.
#[derive(Copy, Clone, Debug, Default, PartialEq, Eq, Structural)]
pub struct MouseHoverDebugBoxSystem;

/// Indicates if the hover box should be shown: never when hidden, for free
/// positions only when the hovered position can be moved into, and for all
/// positions exactly when the board contains the hovered position.
pub fn should_show_hover_box(
    visibility: MouseHoverVisibility,
    game_logic: &GameLogic,
    mouse_position: &MousePosition,
) -> (r: bool)
    ensures
        visibility == MouseHoverVisibility::Hidden ==> !r,
        visibility == MouseHoverVisibility::AllPositions ==> r == (0 <= mouse_position.grid.row
            < 3 && 0 <= mouse_position.grid.column < 3),
        r ==> 0 <= mouse_position.grid.row < 3 && 0 <= mouse_position.grid.column < 3,
{
    match visibility {
        MouseHoverVisibility::Hidden => false,
        MouseHoverVisibility::FreePositions => game_logic.can_move(mouse_position.grid),
        MouseHoverVisibility::AllPositions => game_logic.board_contains(mouse_position.grid),
    }
}

} // verus!
