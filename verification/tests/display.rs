use dark_instruments::bridge::parse_display_size;

#[test]
fn parses_plain_size_output() {
    let size = parse_display_size("Physical size: 1080x2340").unwrap();
    assert_eq!(size.width, 1080);
    assert_eq!(size.height, 2340);
}

#[test]
fn parses_size_with_surrounding_noise() {
    let size = parse_display_size("  Physical size: 720x1280\n").unwrap();
    assert_eq!(size.width, 720);
    assert_eq!(size.height, 1280);
}

#[test]
fn parses_size_with_leading_zeros() {
    let size = parse_display_size("0008x0009").unwrap();
    assert_eq!(size.width, 8);
    assert_eq!(size.height, 9);
}

#[test]
fn ignores_tokens_after_second_separator() {
    let size = parse_display_size("1x2x3").unwrap();
    assert_eq!(size.width, 1);
    assert_eq!(size.height, 2);
}

#[test]
fn rejects_output_without_separator() {
    assert!(parse_display_size("Physical size: 1080").is_err());
}

#[test]
fn rejects_output_without_digits() {
    assert!(parse_display_size("no size here").is_err());
}

#[test]
fn rejects_empty_width_piece() {
    assert!(parse_display_size("x1080x2340").is_err());
}

#[test]
fn rejects_empty_height_piece() {
    assert!(parse_display_size("1080x").is_err());
}

#[test]
fn rejects_width_out_of_range() {
    assert!(parse_display_size("4294967296x10").is_err());
    let size = parse_display_size("4294967295x10").unwrap();
    assert_eq!(size.width, u32::MAX);
    assert_eq!(size.height, 10);
}

#[test]
fn rejects_empty_output() {
    assert!(parse_display_size("").is_err());
}
