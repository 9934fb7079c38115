use ttt_core::file_io::input_bindings_file;

#[test]
fn input_bindings_file_is_below_the_assets_directory() {
    assert_eq!(input_bindings_file("assets"), "assets/data/input.ron");
}

#[test]
fn input_bindings_file_keeps_the_given_base_path() {
    assert_eq!(
        input_bindings_file("/opt/game/assets"),
        "/opt/game/assets/data/input.ron"
    );
}
