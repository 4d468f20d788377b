use dark_instruments::bridge::{
    activity_args, capture_args, devices_args, input_shown_args, keyevent_args, kill_server_args,
    size_args, start_server_args, swipe_args, tap_args, text_args, KeyCode,
};
use dark_instruments::u32_to_string;

#[test]
fn swipe_arguments_keep_positional_order() {
    // start (10, 20), end (30, 40), duration 500
    let args = swipe_args(10, 30, 20, 40, 500);
    let expected = vec![
        "shell",
        "input",
        "touchscreen",
        "swipe",
        "10",
        "20",
        "30",
        "40",
        "500",
    ];
    assert_eq!(args.len(), expected.len());
    for (have, want) in args.iter().zip(expected.iter()) {
        assert_eq!(have, want);
    }
}

#[test]
fn tap_arguments_put_x_before_y() {
    let args = tap_args(5, 7);
    let expected = vec!["shell", "input", "tap", "5", "7"];
    assert_eq!(args.len(), expected.len());
    for (have, want) in args.iter().zip(expected.iter()) {
        assert_eq!(have, want);
    }
}

#[test]
fn decimal_formatting_is_exact() {
    assert_eq!(u32_to_string(0), "0");
    assert_eq!(u32_to_string(7), "7");
    assert_eq!(u32_to_string(10), "10");
    assert_eq!(u32_to_string(500), "500");
    assert_eq!(u32_to_string(u32::MAX), "4294967295");
}

#[test]
fn key_codes_map_to_fixed_numbers() {
    assert_eq!(KeyCode::Unknown.code(), 0);
    assert_eq!(KeyCode::Home.code(), 3);
    assert_eq!(KeyCode::Back.code(), 4);
    assert_eq!(KeyCode::_0.code(), 7);
    assert_eq!(KeyCode::_9.code(), 16);
    assert_eq!(KeyCode::VolumeUp.code(), 24);
    assert_eq!(KeyCode::Macro4.code(), 316);
}

fn assert_list(have: Vec<String>, want: Vec<&str>) {
    assert_eq!(have.len(), want.len());
    for (h, w) in have.iter().zip(want.iter()) {
        assert_eq!(h, w);
    }
}

#[test]
fn fixed_command_lists_are_exact() {
    assert_list(devices_args(), vec!["devices"]);
    assert_list(kill_server_args(), vec!["kill-server"]);
    assert_list(start_server_args(), vec!["start-server"]);
    assert_list(size_args(), vec!["shell", "wm", "size"]);
    assert_list(capture_args(), vec!["exec-out", "screencap", "-p"]);
    assert_list(
        input_shown_args(),
        vec!["shell", "dumpsys", "input_method", "|", "grep", "mInputShown"],
    );
}

#[test]
fn activity_and_text_arguments_are_forwarded_verbatim() {
    assert_list(
        activity_args("com.example/.Main"),
        vec!["shell", "am", "start", "-n", "com.example/.Main"],
    );
    assert_list(
        text_args("hello world"),
        vec!["shell", "input", "text", "hello world"],
    );
}

#[test]
fn keyevent_arguments_carry_the_decimal_code() {
    assert_list(
        keyevent_args(&KeyCode::Back),
        vec!["shell", "input", "keyevent", "4"],
    );
    assert_list(
        keyevent_args(&KeyCode::Macro4),
        vec!["shell", "input", "keyevent", "316"],
    );
}
