use ttt_core::components::AiPlayer;
use ttt_core::components::MouseHoverVisibility;
use ttt_core::components::Player;
use ttt_core::environments::DebugOptions;
use ttt_core::rules::Difficulty;

#[test]
fn player_opposite_player_when_x_should_be_o() {
    let player = Player::X;

    let opposite_player = player.opposite_player();

    assert_eq!(opposite_player, Player::O);
}

#[test]
fn player_opposite_player_when_o_should_be_x() {
    let player = Player::O;

    let opposite_player = player.opposite_player();

    assert_eq!(opposite_player, Player::X);
}

#[test]
fn ai_player_new_should_have_no_move_delay() {
    let ai_player = AiPlayer::new(Difficulty::Random);

    assert_eq!(ai_player.move_delay, 0);
}

#[test]
fn debug_options_enable_all_turns_everything_on() {
    let options = DebugOptions::enable_all();

    assert!(options.grid);
    assert!(options.border);
    assert!(options.marks);
    assert!(options.win_line);
    assert!(options.center_points);
    assert_eq!(options.mouse_hover, MouseHoverVisibility::AllPositions);
}

#[test]
fn debug_options_disable_all_turns_everything_off() {
    let options = DebugOptions::disable_all();

    assert!(!options.grid);
    assert!(!options.border);
    assert!(!options.marks);
    assert!(!options.win_line);
    assert!(!options.center_points);
    assert_eq!(options.mouse_hover, MouseHoverVisibility::Hidden);
}
