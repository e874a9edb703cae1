use bulbtracer::utils::clampi;
use bulbtracer::utils::parse_hex_color;
use bulbtracer::utils::str_eq;

#[test]
fn clampi_clamps_to_the_range() {
    assert_eq!(clampi(15, 0, 10), 10);
    assert_eq!(clampi(-5, 0, 10), 0);
    assert_eq!(clampi(5, 0, 10), 5);
    assert_eq!(clampi(i32::MIN, -1, 1), -1);
    assert_eq!(clampi(i32::MAX, -1, 1), 1);
}

#[test]
fn hex_color_parses_channels() {
    assert_eq!(parse_hex_color("#ff8040"), (255, 128, 64));
    assert_eq!(parse_hex_color("#FF8040"), (255, 128, 64));
    assert_eq!(parse_hex_color("#000044"), (0, 0, 68));
    assert_eq!(parse_hex_color("123456"), (18, 52, 86));
}

#[test]
fn hex_color_strips_every_leading_hash() {
    assert_eq!(parse_hex_color("##ff8040"), (255, 128, 64));
}

#[test]
fn short_hex_color_is_black() {
    assert_eq!(parse_hex_color(""), (0, 0, 0));
    assert_eq!(parse_hex_color("#fff"), (0, 0, 0));
    assert_eq!(parse_hex_color("#####"), (0, 0, 0));
}

#[test]
fn bad_hex_digits_zero_their_channel() {
    assert_eq!(parse_hex_color("#ffzz40"), (255, 0, 64));
    assert_eq!(parse_hex_color("#g0g0g0"), (0, 0, 0));
}

#[test]
fn str_eq_compares_contents() {
    assert!(str_eq("interpolated", "interpolated"));
    assert!(!str_eq("interpolated", "interpolate"));
    assert!(!str_eq("4d", "4D"));
    assert!(str_eq("", ""));
}
