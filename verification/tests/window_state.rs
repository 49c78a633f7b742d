use vertere::window_state::{place, state_path, Position, Screen};

const SCREEN: Screen = Screen {
    width: 2560,
    height: 1440,
};
const SIZE: Screen = Screen {
    width: 420,
    height: 200,
};

fn stored(output: &str, x: i32, y: i32) -> Position {
    Position {
        output: output.to_owned(),
        x,
        y,
    }
}

#[test]
fn defaults_to_the_right_edge_vertically_centred() {
    let (x, y) = place(None, "DP-1", SCREEN, SIZE);
    assert_eq!(x, 2560 - 420 - 24);
    assert_eq!(y, (1440 - 200) / 2);
}

#[test]
fn restores_a_stored_position() {
    let p = stored("DP-1", 100, 200);
    assert_eq!(place(Some(&p), "DP-1", SCREEN, SIZE), (100, 200));
}

#[test]
fn ignores_a_position_from_another_output() {
    let p = stored("HDMI-A-1", 100, 200);
    let (x, _) = place(Some(&p), "DP-1", SCREEN, SIZE);
    assert_eq!(x, 2560 - 420 - 24, "should fall back to the default");
}

#[test]
fn pulls_an_offscreen_position_back_into_view() {
    let p = stored("DP-1", 3000, 1300);
    let (x, y) = place(Some(&p), "DP-1", SCREEN, SIZE);
    assert_eq!(x, 2560 - 420 - 24);
    assert_eq!(y, 1440 - 200 - 24);
}

#[test]
fn keeps_a_negative_position_on_screen() {
    let p = stored("DP-1", -500, -500);
    assert_eq!(place(Some(&p), "DP-1", SCREEN, SIZE), (24, 24));
}

#[test]
fn survives_a_screen_smaller_than_the_window() {
    let tiny = Screen {
        width: 300,
        height: 150,
    };
    let (x, y) = place(None, "DP-1", tiny, SIZE);
    assert!(x >= 0 && y >= 0);
}

#[test]
fn a_tiny_screen_puts_the_window_at_the_margin() {
    let tiny = Screen {
        width: 300,
        height: 150,
    };
    assert_eq!(place(None, "DP-1", tiny, SIZE), (24, 24));
    let p = stored("DP-1", 100, 100);
    assert_eq!(place(Some(&p), "DP-1", tiny, SIZE), (24, 24));
}

#[test]
fn the_position_file_lives_in_the_state_directory() {
    assert_eq!(state_path("/state/vertere"), "/state/vertere/window.json");
    assert_eq!(state_path("/state/vertere/"), "/state/vertere/window.json");
}
