//! Access to the tic-tac-toe rules engine.
//!
//! The rules engine (the `open_ttt_lib` crate) owns win detection and move
//! legality; this module wraps the handful of calls the game makes into it
//! and carries the engine's answers as plain values of this library, so that
//! the decisions built on top of them are verified.

use vstd::prelude::*;
use vstd::string::StringExecFns;
use open_ttt_lib::game::Game;
use open_ttt_lib::game::State;
use open_ttt_lib::ai::Opponent;
use crate::components::Mark;
use crate::components::Player;
use crate::grid::Position;

verus! {

#[verifier::external_type_specification]
#[verifier::external_body]
pub struct ExGame(Game);

#[verifier::external_type_specification]
#[verifier::external_body]
pub struct ExOpponent(Opponent);

/// The state of the game as reported by the rules engine.
///
/// The positions carried by the win states are the ones that contributed to
/// the victory; they come in no particular order.
#[derive(Clone, Debug, PartialEq, Eq)]
pub enum GameState {
    /// Player X's turn to mark a free position.
    PlayerXMove,
    /// Player O's turn to mark a free position.
    PlayerOMove,
    /// Player X has won the game.
    PlayerXWin(Vec<Position>),
    /// Player O has won the game.
    PlayerOWin(Vec<Position>),
    /// The game has ended in a draw where there are no winners.
    CatsGame,
}

impl GameState {
    /// Whether the state is one of the game over states.
    pub open spec fn spec_is_game_over(self) -> bool {
        match self {
            GameState::PlayerXMove => false,
            GameState::PlayerOMove => false,
            _ => true,
        }
    }

    /// Indicates if the state represents one of the game over states.
    pub fn is_game_over(&self) -> (r: bool)
        ensures
            r == self.spec_is_game_over(),
    {
        match self {
            GameState::PlayerXMove => false,
            GameState::PlayerOMove => false,
            _ => true,
        }
    }

    /// Whether the state gives the given player the move.
    pub open spec fn spec_is_players_move(self, player: Player) -> bool {
        match self {
            GameState::PlayerXMove => player == Player::X,
            GameState::PlayerOMove => player == Player::O,
            _ => false,
        }
    }

    /// Indicates if it is the provided player's turn in this state.
    pub fn is_players_move(&self, player: Player) -> (r: bool)
        ensures
            r == self.spec_is_players_move(player),
    {
        match self {
            GameState::PlayerXMove => player == Player::X,
            GameState::PlayerOMove => player == Player::O,
            _ => false,
        }
    }
}

/// Selects the difficulty of the rules engine's AI opponent.
#[derive(Copy, Clone, Debug, PartialEq, Eq, Structural)]
pub enum Difficulty {
    /// The opponent picks random positions and does not actually evaluate
    /// the game.
    Random,
    /// Intended for players who are new to tic-tac-toe.
    Easy,
    /// A challenge for players with some experience; games are winnable.
    Medium,
    /// The opponent plays almost perfect games.
    Hard,
    /// The opponent plays perfect games and cannot be defeated.
    Unbeatable,
}

/// The ways the rules engine can reject a move.
#[derive(Copy, Clone, Debug, PartialEq, Eq, Structural)]
pub enum MoveError {
    /// The game is over so no more moves can be performed.
    GameOver,
    /// The position is already owned by a player. The engine also reports
    /// the current owner; it is not carried here.
    PositionAlreadyOwned(Position),
    /// The position is outside the area of the board.
    InvalidPosition(Position),
}

/// Relies on open_ttt_lib::game::Game::new: a fresh game on a 3x3 board.
#[verifier::external_body]
pub(crate) fn new_game() -> Game {
    Game::new()
}

/// Relies on open_ttt_lib::game::Game::state, telling the engine's state
/// variants apart. The positions of a win state keep no particular order.
#[verifier::external_body]
pub(crate) fn game_state(game: &Game) -> GameState {
    match game.state() {
        State::PlayerXMove => GameState::PlayerXMove,
        State::PlayerOMove => GameState::PlayerOMove,
        State::PlayerXWin(s) => GameState::PlayerXWin(
            s.into_iter().map(|p| Position { row: p.row, column: p.column }).collect(),
        ),
        State::PlayerOWin(s) => GameState::PlayerOWin(
            s.into_iter().map(|p| Position { row: p.row, column: p.column }).collect(),
        ),
        State::CatsGame => GameState::CatsGame,
    }
}

/// Relies on open_ttt_lib::game::Game::can_move: it accepts only a free
/// position that the game's fixed 3x3 board contains.
#[verifier::external_body]
pub(crate) fn game_can_move(game: &Game, position: Position) -> (r: bool)
    ensures
        r ==> 0 <= position.row < 3 && 0 <= position.column < 3,
{
    game.can_move(open_ttt_lib::game::Position { row: position.row, column: position.column })
}

/// Relies on open_ttt_lib::game::Game::do_move, telling its error variants
/// apart; the engine reports the position outside its board exactly through
/// its invalid-position error. The new state the engine returns on success
/// is dropped, callers re-read it from the game.
#[verifier::external_body]
pub(crate) fn game_do_move(game: &mut Game, position: Position) -> (r: Result<(), MoveError>)
    ensures
        r matches Err(MoveError::InvalidPosition(p)) ==> p == position && !(0 <= position.row
            < 3 && 0 <= position.column < 3),
        r matches Err(MoveError::PositionAlreadyOwned(p)) ==> p == position && 0
            <= position.row < 3 && 0 <= position.column < 3,
        r is Ok ==> 0 <= position.row < 3 && 0 <= position.column < 3,
{
    let engine_position = open_ttt_lib::game::Position { row: position.row, column: position.column };
    match game.do_move(engine_position) {
        Ok(_) => Ok(()),
        Err(open_ttt_lib::game::Error::GameOver) => Err(MoveError::GameOver),
        Err(open_ttt_lib::game::Error::PositionAlreadyOwned(p, _)) => Err(
            MoveError::PositionAlreadyOwned(Position { row: p.row, column: p.column }),
        ),
        Err(open_ttt_lib::game::Error::InvalidPosition(p)) => Err(
            MoveError::InvalidPosition(Position { row: p.row, column: p.column }),
        ),
    }
}

/// Relies on open_ttt_lib::board::Board::contains and on the game keeping a
/// fixed 3x3 board: containment is exactly the zero-based range check.
#[verifier::external_body]
pub(crate) fn game_board_contains(game: &Game, position: Position) -> (r: bool)
    ensures
        r == (0 <= position.row < 3 && 0 <= position.column < 3),
{
    game.board().contains(open_ttt_lib::game::Position { row: position.row, column: position.column })
}

/// Relies on open_ttt_lib::board::Board::iter on the game's fixed 3x3 board:
/// it yields one entry per cell, row-major, the column moving fastest.
#[verifier::external_body]
pub(crate) fn game_board_positions(game: &Game) -> (r: Vec<Position>)
    ensures
        r@.len() == 9,
        forall|i: int| 0 <= i < 9 ==> #[trigger] r@[i] == (Position {
            row: (i / 3) as i32,
            column: (i % 3) as i32,
        }),
{
    game.board().iter().map(|(p, _)| Position { row: p.row, column: p.column }).collect()
}

/// Relies on open_ttt_lib::game::Game::start_next_game; the new state the
/// engine returns is dropped, callers re-read it from the game.
#[verifier::external_body]
pub(crate) fn game_start_next_game(game: &mut Game) {
    game.start_next_game();
}

/// Relies on open_ttt_lib::ai::Opponent::new, telling our difficulty levels
/// apart to select the engine's matching difficulty.
#[verifier::external_body]
pub(crate) fn new_opponent(difficulty: Difficulty) -> Opponent {
    Opponent::new(match difficulty {
        Difficulty::Random => open_ttt_lib::ai::Difficulty::None,
        Difficulty::Easy => open_ttt_lib::ai::Difficulty::Easy,
        Difficulty::Medium => open_ttt_lib::ai::Difficulty::Medium,
        Difficulty::Hard => open_ttt_lib::ai::Difficulty::Hard,
        Difficulty::Unbeatable => open_ttt_lib::ai::Difficulty::Unbeatable,
    })
}

/// Relies on open_ttt_lib::ai::Opponent::get_move: the opponent only ever
/// selects a free position of the game's fixed 3x3 board, and none once the
/// game is over.
#[verifier::external_body]
pub(crate) fn opponent_get_move(opponent: &Opponent, game: &Game) -> (r: Option<Position>)
    ensures
        r matches Some(p) ==> 0 <= p.row < 3 && 0 <= p.column < 3,
{
    opponent.get_move(game).map(|p| Position { row: p.row, column: p.column })
}

/// Provides access to the tic-tac-toe game logic.
///
/// This includes the current state of the game and the last time a move was
/// made.
pub struct GameLogic {
    /// The tic-tac-toe game that contains the current game state.
    pub game: Game,
    /// The time the game was last updated, in nanoseconds of absolute
    /// simulation time.
    pub last_move_time: u64,
}

impl GameLogic {
    /// Creates the logic for a fresh game, with the last-move time at zero.
    pub fn new() -> (r: Self)
        ensures
            r.last_move_time == 0,
    {
        Self { game: new_game(), last_move_time: 0 }
    }

    /// Reads the current state of the game out of the rules engine.
    pub fn state(&self) -> GameState {
        game_state(&self.game)
    }

    /// Helper function for knowing if it is the provided player's turn.
    pub fn is_players_move(&self, player: &Player) -> bool {
        let state = game_state(&self.game);
        state.is_players_move(*player)
    }

    /// Indicates if the square at the indicated position can be marked; only
    /// a free position inside the board qualifies.
    pub fn can_move(&self, position: Position) -> (r: bool)
        ensures
            r ==> 0 <= position.row < 3 && 0 <= position.column < 3,
    {
        game_can_move(&self.game, position)
    }

    /// Indicates if the game's board contains the position: exactly the
    /// zero-based range check against the 3x3 board.
    pub fn board_contains(&self, position: Position) -> (r: bool)
        ensures
            r == (0 <= position.row < 3 && 0 <= position.column < 3),
    {
        game_board_contains(&self.game, position)
    }

    /// The positions of the game's board: nine of them, row-major, the
    /// column moving fastest.
    pub fn board_positions(&self) -> (r: Vec<Position>)
        ensures
            r@.len() == 9,
            forall|i: int| 0 <= i < 9 ==> #[trigger] r@[i] == (Position {
                row: (i / 3) as i32,
                column: (i % 3) as i32,
            }),
    {
        game_board_positions(&self.game)
    }

    /// Handles a player's request to mark a position: the move is applied
    /// only when the position is free on the board and it is the requesting
    /// player's turn. On success the last-move time is set to the given
    /// time and the placed mark is returned together with the new state of
    /// the game; otherwise nothing changes but the game is left to the
    /// engine's bookkeeping.
    pub fn try_apply_mark(
        &mut self,
        player: Player,
        position: Position,
        current_time_nanos: u64,
    ) -> (r: Option<(Mark, GameState)>)
        ensures
            r is Some ==> final(self).last_move_time == current_time_nanos,
            r is None ==> final(self).last_move_time == old(self).last_move_time,
            r matches Some((mark, _)) ==> mark == (Mark { owner: player, position }),
            r is Some ==> 0 <= position.row < 3 && 0 <= position.column < 3,
            !(0 <= position.row < 3 && 0 <= position.column < 3) ==> r is None,
    {
        if game_can_move(&self.game, position) && self.is_players_move(&player) {
            match game_do_move(&mut self.game, position) {
                Ok(()) => {
                    self.last_move_time = current_time_nanos;
                    let state = game_state(&self.game);
                    Some((Mark { owner: player, position }, state))
                },
                Err(_) => None,
            }
        } else {
            None
        }
    }

    /// Marks the indicated square as owned by the player whose turn it is
    /// and reads the new state of the game. The engine rejects the move when
    /// the game is over, when the position is outside the board, or when the
    /// position is already owned; a position outside the board is never
    /// accepted. The last-move time is left untouched.
    pub fn do_move(&mut self, position: Position) -> (r: Result<GameState, MoveError>)
        ensures
            (r matches Err(MoveError::InvalidPosition(p)) ==> p == position && !(0
                <= position.row < 3 && 0 <= position.column < 3)),
            !(0 <= position.row < 3 && 0 <= position.column < 3) ==> r is Err,
            final(self).last_move_time == old(self).last_move_time,
    {
        match game_do_move(&mut self.game, position) {
            Ok(()) => Ok(game_state(&self.game)),
            Err(e) => Err(e),
        }
    }

    /// Starts the next game and records the given time as the last-move
    /// time, so that move-delay gating restarts from the new game's start.
    pub fn start_next_game(&mut self, current_time_nanos: u64)
        ensures
            final(self).last_move_time == current_time_nanos,
    {
        game_start_next_game(&mut self.game);
        self.last_move_time = current_time_nanos;
    }
}

impl Default for GameLogic {
    /// The logic for a fresh game, with the last-move time at zero.
    fn default() -> (r: Self)
        ensures
            r.last_move_time == 0,
    {
        Self::new()
    }
}

/// Holds the options for the game state.
#[derive(Copy, Clone, Debug, PartialEq, Eq, Structural)]
pub enum GameStateOptions {
    /// Play a single player game with the provided difficulty and player
    /// mark.
    SinglePlayer(Difficulty, Player),
    /// Play a multiplayer game.
    Multiplayer,
}

impl Default for GameStateOptions {
    /// A medium difficulty single-player game for player X.
    fn default() -> (r: Self)
        ensures
            r == GameStateOptions::SinglePlayer(Difficulty::Medium, Player::X),
    {
        GameStateOptions::SinglePlayer(Difficulty::Medium, Player::X)
    }
}

/// The extra information shown about a running game: the kind of game, and
/// for a single-player game the difficulty where it has a display name.
pub fn game_state_extra_information(options: &GameStateOptions) -> (r: Vec<String>)
    ensures
        options matches GameStateOptions::Multiplayer ==> r@.len() == 1 && r@[0]@
            == "Multiplayer"@,
        options matches GameStateOptions::SinglePlayer(_, _) ==> r@.len() >= 1 && r@[0]@
            == "Single-player"@,
        options matches GameStateOptions::SinglePlayer(Difficulty::Easy, _) ==> r@.len() == 2
            && r@[1]@ == "Easy"@,
        options matches GameStateOptions::SinglePlayer(Difficulty::Medium, _) ==> r@.len()
            == 2 && r@[1]@ == "Medium"@,
        options matches GameStateOptions::SinglePlayer(Difficulty::Hard, _) ==> r@.len() == 2
            && r@[1]@ == "Hard"@,
        options matches GameStateOptions::SinglePlayer(Difficulty::Random, _) ==> r@.len()
            == 1,
        options matches GameStateOptions::SinglePlayer(Difficulty::Unbeatable, _) ==> r@.len()
            == 1,
{
    match options {
        GameStateOptions::Multiplayer => {
            let mut single_player_info: Vec<String> = Vec::new();
            single_player_info.push(String::from_str("Multiplayer"));
            single_player_info
        },
        GameStateOptions::SinglePlayer(difficulty, _) => {
            let mut single_player_info: Vec<String> = Vec::new();
            single_player_info.push(String::from_str("Single-player"));
            match difficulty {
                Difficulty::Easy => single_player_info.push(String::from_str("Easy")),
                Difficulty::Medium => single_player_info.push(String::from_str("Medium")),
                Difficulty::Hard => single_player_info.push(String::from_str("Hard")),
                _ => (),
            }
            single_player_info
        },
    }
}

} // verus!
