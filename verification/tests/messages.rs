use color_picker::messages::{accepts_button_custom_draw, accepts_static_draw, StaticDraw};
use color_picker::scrolling::{
    bar_position, low_word_of, notification_code_of, wheel_delta_of, wheel_position, ScrollInfo,
};

fn wide(text: &str) -> Vec<u16> {
    text.encode_utf16().collect()
}

#[test]
fn only_push_buttons_of_the_window_are_drawn() {
    let button = wide("Button");
    assert!(accepts_button_custom_draw(true, Some(1), 1, &button, 0));
    assert!(accepts_button_custom_draw(
        true,
        Some(1),
        1,
        &wide("BUTTON"),
        0x5001_0001
    ));
    assert!(!accepts_button_custom_draw(false, Some(1), 1, &button, 0));
    assert!(!accepts_button_custom_draw(true, Some(2), 1, &button, 0));
    assert!(!accepts_button_custom_draw(true, None, 1, &button, 0));
    assert!(!accepts_button_custom_draw(
        true,
        Some(1),
        1,
        &wide("Static"),
        0
    ));
    assert!(!accepts_button_custom_draw(
        true,
        Some(1),
        1,
        &wide("Buttons"),
        0
    ));
    assert!(!accepts_button_custom_draw(true, Some(1), 1, &button, 3));
}

#[test]
fn owner_draw_requests_name_their_control_and_parent() {
    let draw = StaticDraw {
        is_static_control: true,
        control_id: 8,
        parent: Some(1),
    };
    assert!(accepts_static_draw(draw, 1, 8));
    assert!(!accepts_static_draw(draw, 1, 9));
    assert!(!accepts_static_draw(draw, 2, 8));
    assert!(!accepts_static_draw(
        StaticDraw {
            is_static_control: false,
            ..draw
        },
        1,
        8
    ));
    assert!(!accepts_static_draw(
        StaticDraw {
            parent: None,
            ..draw
        },
        1,
        8
    ));
}

#[test]
fn message_parameters_are_split_into_words() {
    assert_eq!(low_word_of(0x0012_0034), 0x34);
    assert_eq!(notification_code_of(0x0012_0034), 0x12);
    assert_eq!(wheel_delta_of(0x0078_0000), 120);
    assert_eq!(wheel_delta_of(0xff88_0000), -120);
}

#[test]
fn scroll_commands_move_by_lines_pages_and_ends() {
    let info = ScrollInfo {
        page: 80,
        track_position: 33,
        maximum: 611,
    };
    for (command, target) in [
        (0, 72),
        (1, 128),
        (2, 20),
        (3, 180),
        (4, 33),
        (5, 33),
        (6, 0),
        (7, 611),
        (8, 100),
    ] {
        assert_eq!(bar_position(100, command, info, 96), target);
    }
    // A display that does not tell its DPI counts as one of 96.
    assert_eq!(bar_position(100, 1, info, 0), 128);
    assert_eq!(bar_position(100, 1, info, 192), 156);
    assert_eq!(wheel_position(100, -240, 96), 244);
    assert_eq!(wheel_position(100, 119, 96), 100);
}
