use ttt_core::components::AiPlayer;
use ttt_core::components::MouseHoverVisibility;
use ttt_core::components::Player;
use ttt_core::events::ActionBinding;
use ttt_core::events::PlayerEvent;
use ttt_core::grid::Grid;
use ttt_core::grid::Position;
use ttt_core::math::Point3;
use ttt_core::math::ScreenPoint;
use ttt_core::rules::Difficulty;
use ttt_core::rules::GameLogic;
use ttt_core::rules::GameState;
use ttt_core::systems::AiPlayerSystem;
use ttt_core::systems::GameStateDisplaySystem;
use ttt_core::systems::LocalPlayerSystem;
use ttt_core::systems::MousePosition;
use ttt_core::systems::game_state_text;
use ttt_core::systems::process_keyboard_input;
use ttt_core::systems::process_mouse_input;
use ttt_core::systems::should_show_hover_box;
use ttt_core::systems::sufficient_delay_since_last_move;
use ttt_core::systems::update_mouse_position;

#[test]
fn sufficient_delay_since_last_move_when_same_delay_should_return_true() {
    let mut ai_player = AiPlayer::new(Difficulty::Random);
    let current_time_nanos = 0;
    let mut game_logic = GameLogic::new();

    ai_player.move_delay = 0;
    game_logic.last_move_time = 0;

    let result = sufficient_delay_since_last_move(&ai_player, &game_logic, current_time_nanos);

    assert_eq!(result, true);
}

#[test]
fn sufficient_delay_since_last_move_when_less_delay_should_return_false() {
    let mut ai_player = AiPlayer::new(Difficulty::Random);
    let current_time_nanos = 2_000_000_000;
    let mut game_logic = GameLogic::new();

    ai_player.move_delay = 5_000_000_000;
    game_logic.last_move_time = 0;

    let result = sufficient_delay_since_last_move(&ai_player, &game_logic, current_time_nanos);

    assert_eq!(result, false);
}

#[test]
fn sufficient_delay_saturates_when_clock_reads_before_last_move() {
    let mut ai_player = AiPlayer::new(Difficulty::Random);
    let mut game_logic = GameLogic::new();
    game_logic.last_move_time = 10;

    ai_player.move_delay = 0;
    assert!(sufficient_delay_since_last_move(&ai_player, &game_logic, 3));

    ai_player.move_delay = 1;
    assert!(!sufficient_delay_since_last_move(&ai_player, &game_logic, 3));
}

#[test]
fn ai_player_system_emits_mark_request_on_its_turn() {
    let system = AiPlayerSystem;
    let ai_player = AiPlayer::new(Difficulty::Unbeatable);
    let game_logic = GameLogic::new();

    let event = system.run_player(Player::X, &ai_player, &game_logic, 0);

    match event {
        Some(PlayerEvent::RequestMark(player, position)) => {
            assert_eq!(player, Player::X);
            assert!(game_logic.board_contains(position));
        }
        None => panic!("the AI should move on its turn"),
    }
}

#[test]
fn ai_player_system_waits_for_move_delay() {
    let system = AiPlayerSystem;
    let mut ai_player = AiPlayer::new(Difficulty::Unbeatable);
    ai_player.move_delay = 400_000_000;
    let mut game_logic = GameLogic::new();
    game_logic.last_move_time = 1_000_000_000;

    let event = system.run_player(Player::X, &ai_player, &game_logic, 1_200_000_000);

    assert!(event.is_none());
}

#[test]
fn ai_player_system_skips_other_players_turn() {
    let system = AiPlayerSystem;
    let ai_player = AiPlayer::new(Difficulty::Unbeatable);
    let game_logic = GameLogic::new();

    let event = system.run_player(Player::O, &ai_player, &game_logic, 0);

    assert!(event.is_none());
}

#[test]
fn process_keyboard_input_picks_first_pressed_position() {
    let game_logic = GameLogic::new();
    let board_positions = game_logic.board_positions();
    let actions_down = vec![ActionBinding::PlaceMark(1, 2)];

    let event = process_keyboard_input(Player::X, &board_positions, &actions_down);

    assert_eq!(
        event,
        Some(PlayerEvent::RequestMark(Player::X, Position { row: 1, column: 2 }))
    );
}

#[test]
fn process_keyboard_input_without_pressed_position_gives_no_event() {
    let game_logic = GameLogic::new();
    let board_positions = game_logic.board_positions();
    let actions_down = vec![ActionBinding::PlaceMarkAtMouse];

    let event = process_keyboard_input(Player::X, &board_positions, &actions_down);

    assert!(event.is_none());
}

#[test]
fn process_mouse_input_requests_mark_at_mouse_grid_position() {
    let mut mouse_position = MousePosition::default();
    mouse_position.grid = Position { row: 2, column: 0 };
    let actions_down = vec![ActionBinding::PlaceMarkAtMouse];

    let event = process_mouse_input(Player::O, &mouse_position, &actions_down);

    assert_eq!(
        event,
        Some(PlayerEvent::RequestMark(Player::O, Position { row: 2, column: 0 }))
    );
}

#[test]
fn process_mouse_input_without_action_gives_no_event() {
    let mouse_position = MousePosition::default();
    let actions_down = Vec::new();

    let event = process_mouse_input(Player::O, &mouse_position, &actions_down);

    assert!(event.is_none());
}

#[test]
fn local_player_system_emits_keyboard_and_mouse_events_on_turn() {
    let system = LocalPlayerSystem;
    let game_logic = GameLogic::new();
    let mut mouse_position = MousePosition::default();
    mouse_position.grid = Position { row: 1, column: 1 };
    let actions_down = vec![
        ActionBinding::PlaceMark(0, 0),
        ActionBinding::PlaceMarkAtMouse,
    ];

    let events = system.run_player(Player::X, &game_logic, &mouse_position, &actions_down);

    assert_eq!(
        events,
        vec![
            PlayerEvent::RequestMark(Player::X, Position { row: 0, column: 0 }),
            PlayerEvent::RequestMark(Player::X, Position { row: 1, column: 1 }),
        ]
    );
}

#[test]
fn local_player_system_ignores_player_when_not_their_turn() {
    let system = LocalPlayerSystem;
    let game_logic = GameLogic::new();
    let mouse_position = MousePosition::default();
    let actions_down = vec![ActionBinding::PlaceMarkAtMouse];

    let events = system.run_player(Player::O, &game_logic, &mouse_position, &actions_down);

    assert!(events.is_empty());
}

#[test]
fn game_state_text_describes_each_state() {
    assert_eq!(game_state_text(&GameState::PlayerXMove), "X's turn");
    assert_eq!(game_state_text(&GameState::PlayerOMove), "O's turn");
    assert_eq!(
        game_state_text(&GameState::PlayerXWin(Vec::new())),
        "Game Over: X wins!"
    );
    assert_eq!(
        game_state_text(&GameState::PlayerOWin(Vec::new())),
        "Game Over: O wins!"
    );
    assert_eq!(game_state_text(&GameState::CatsGame), "Game Over: Cat's game");
}

#[test]
fn status_text_joins_parts_with_vertical_bars() {
    let system = GameStateDisplaySystem;
    let extra_information = vec!["Single-player".to_string(), "Medium".to_string()];

    let text = system.status_text(&extra_information, &GameState::PlayerXMove);

    assert_eq!(text, "Single-player | Medium | X's turn");
}

#[test]
fn status_text_without_extra_information_is_state_text() {
    let system = GameStateDisplaySystem;

    let text = system.status_text(&Vec::new(), &GameState::CatsGame);

    assert_eq!(text, "Game Over: Cat's game");
}

#[test]
fn should_show_hover_box_when_hidden_is_false() {
    let game_logic = GameLogic::new();
    let mouse_position = MousePosition::default();

    let show = should_show_hover_box(MouseHoverVisibility::Hidden, &game_logic, &mouse_position);

    assert!(!show);
}

#[test]
fn should_show_hover_box_for_all_positions_checks_board() {
    let game_logic = GameLogic::new();
    let mut mouse_position = MousePosition::default();

    mouse_position.grid = Position { row: 2, column: 2 };
    assert!(should_show_hover_box(
        MouseHoverVisibility::AllPositions,
        &game_logic,
        &mouse_position
    ));

    mouse_position.grid = Position { row: 3, column: 0 };
    assert!(!should_show_hover_box(
        MouseHoverVisibility::AllPositions,
        &game_logic,
        &mouse_position
    ));
}

#[test]
fn should_show_hover_box_for_free_positions_of_fresh_game() {
    let game_logic = GameLogic::new();
    let mut mouse_position = MousePosition::default();
    mouse_position.grid = Position { row: 1, column: 1 };

    let show = should_show_hover_box(
        MouseHoverVisibility::FreePositions,
        &game_logic,
        &mouse_position,
    );

    assert!(show);
}

#[test]
fn mouse_position_default_is_all_zero() {
    let mouse_position = MousePosition::default();

    assert_eq!(mouse_position.screen, ScreenPoint::new(0, 0));
    assert_eq!(mouse_position.world, Point3::new(0, 0, 0));
    assert_eq!(mouse_position.grid, Position { row: 0, column: 0 });
}

#[test]
fn update_mouse_position_projects_world_point_to_grid() {
    let grid = Grid::new(Point3::new(0, 0, 0), 3000);
    let mut mouse_position = MousePosition::default();
    let screen = ScreenPoint::new(12, 34);
    let world = Point3::new(1200, -1200, 0);

    update_mouse_position(&mut mouse_position, &grid, screen, world);

    assert_eq!(mouse_position.screen, screen);
    assert_eq!(mouse_position.world, world);
    // (1200 + 1500) / 1000 rounds down to 2; (-1200 + 1500) / 1000 to 0.
    assert_eq!(mouse_position.grid, Position { row: 0, column: 2 });
}
