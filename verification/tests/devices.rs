use dark_instruments::bridge::{has_exclusive_active_line, line_matches, Adb};
use dark_instruments::bridge::error::AdbError;
use dark_instruments::str_contains;

#[test]
fn one_ready_line_is_exclusive() {
    assert!(has_exclusive_active_line(
        "List of devices attached\nemulator-5554\tdevice\n"
    ));
}

#[test]
fn empty_device_list_is_not_exclusive() {
    assert!(!has_exclusive_active_line("List of devices attached\n"));
    assert!(!has_exclusive_active_line(""));
}

#[test]
fn two_ready_lines_are_not_exclusive() {
    assert!(!has_exclusive_active_line(
        "List of devices attached\nemulator-5554\tdevice\nemulator-5556\tdevice\n"
    ));
}

#[test]
fn offline_lines_do_not_count() {
    assert!(has_exclusive_active_line(
        "List of devices attached\nemulator-5554\toffline\nemulator-5556\tdevice\n"
    ));
}

#[test]
fn unicode_whitespace_separates_tokens_too() {
    // a no-break space between serial and marker still makes a ready line
    assert!(line_matches("emulator-5554\u{a0}device"));
    assert!(has_exclusive_active_line("a\u{a0}device"));
    // and still counts as trailing whitespace to trim
    assert!(line_matches("emulator-5554\tdevice\u{a0}"));
}

#[test]
fn ready_line_needs_two_tokens() {
    assert!(line_matches("emulator-5554\tdevice"));
    assert!(line_matches("emulator-5554 device  "));
    // the header's single token ends with the marker but is no device
    assert!(!line_matches("device"));
    assert!(!line_matches("emulator-5554\toffline"));
    assert!(!line_matches(""));
}

#[test]
fn target_matching_is_a_substring_test() {
    let output = "List of devices attached\nemulator-5554\tdevice\n";
    assert!(str_contains(output, "emulator-5554"));
    assert!(str_contains(output, "5554"));
    assert!(!str_contains(output, "emulator-5556"));
}

#[test]
fn handshake_decisions_are_repeatable() {
    let output = "List of devices attached\nemulator-5554\tdevice\n";
    let first = has_exclusive_active_line(output);
    let second = has_exclusive_active_line(output);
    assert_eq!(first, second);
    let first_t = str_contains(output, "emulator-5554");
    let second_t = str_contains(output, "emulator-5554");
    assert_eq!(first_t, second_t);
}

#[test]
fn missing_executable_fails_construction() {
    match Adb::new(Some(String::from("/nonexistent/bridge/tool")), None) {
        Err(AdbError::AdbNotFound) => {}
        other => panic!("expected AdbNotFound, got {:?}", other.map(|_| ())),
    }
}

#[test]
fn target_not_in_list_fails_construction() {
    // `echo devices` prints no line holding the requested target
    match Adb::new(
        Some(String::from("/bin/echo")),
        Some(String::from("emulator-5554")),
    ) {
        Err(AdbError::TargetNotOnline) => {}
        other => panic!("expected TargetNotOnline, got {:?}", other.map(|_| ())),
    }
}

#[test]
fn no_exclusive_target_fails_construction() {
    // `echo devices` prints no line ending with the ready marker
    match Adb::new(Some(String::from("/bin/echo")), None) {
        Err(AdbError::NoExclusiveTargetOnline) => {}
        other => panic!(
            "expected NoExclusiveTargetOnline, got {:?}",
            other.map(|_| ())
        ),
    }
}

#[test]
fn explicit_target_succeeds_when_listed() {
    // `echo devices` prints `devices`, which contains the target text
    let adb = Adb::new(Some(String::from("/bin/echo")), Some(String::from("devices")))
        .expect("handshake should succeed");
    // every further command echoes its own arguments; none of it parses
    // as a display size
    assert!(adb.display_size().is_err());
    // captures echo back the argument text, so the checksum is available
    let sum = adb.screen_sum().expect("capture always yields bytes");
    assert_eq!(sum.len(), 32);
    let again = adb.screen_sum().expect("capture always yields bytes");
    assert_eq!(sum, again);
    // pass-through operations report the echoed text
    assert!(adb.input_tap(3, 4).is_some());
    assert!(adb.input_shown() == false);
}
