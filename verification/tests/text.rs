use color_smash::color::Color;
use color_smash::text::{decimal_string, gradient_css, hex_string};

#[test]
fn hex_of_black_has_three_digits() {
    assert_eq!(Color::new(0, 0, 0).hex(), "#000");
}

#[test]
fn hex_is_not_padded() {
    assert_eq!(Color::new(255, 0, 16).hex(), "#ff010");
    assert_eq!(Color::new(1, 1, 1).hex(), "#111");
    assert_eq!(Color::new(15, 16, 17).hex(), "#f1011");
    assert_eq!(Color::new(128, 128, 128).hex(), "#808080");
    assert_eq!(Color::new(171, 205, 239).hex(), "#abcdef");
}

#[test]
fn hex_string_is_lower_case_and_unpadded_for_every_value() {
    for v in 0..=255u8 {
        assert_eq!(hex_string(v), format!("{:x}", v));
    }
    assert_eq!(hex_string(1), "1");
    assert_eq!(hex_string(10), "a");
    assert_eq!(hex_string(16), "10");
    assert_eq!(hex_string(255), "ff");
}

#[test]
fn decimal_string_matches_every_value() {
    for v in 0..=255u8 {
        assert_eq!(decimal_string(v), v.to_string());
    }
    assert_eq!(decimal_string(0), "0");
    assert_eq!(decimal_string(9), "9");
    assert_eq!(decimal_string(10), "10");
    assert_eq!(decimal_string(99), "99");
    assert_eq!(decimal_string(100), "100");
    assert_eq!(decimal_string(205), "205");
}

#[test]
fn hex_code_matches_the_three_channels() {
    for (red, green, blue) in [(0u8, 0u8, 0u8), (9, 10, 11), (15, 16, 255), (200, 50, 10)] {
        assert_eq!(Color::new(red, green, blue).hex(), format!("#{:x}{:x}{:x}", red, green, blue));
    }
}

#[test]
fn css_rgb_is_decimal() {
    assert_eq!(Color::new(255, 255, 255).css_rgb(), "rgb(255,255,255)");
    assert_eq!(Color::new(0, 7, 42).css_rgb(), "rgb(0,7,42)");
}

#[test]
fn gradient_runs_left_to_right() {
    let white = Color::new(255, 255, 255);
    let color = Color::new(200, 50, 10);
    assert_eq!(
        gradient_css(white, color),
        "linear-gradient(to right, rgb(255,255,255), rgb(200,50,10))"
    );
    assert_eq!(
        gradient_css(color, Color::new(0, 0, 0)),
        "linear-gradient(to right, rgb(200,50,10), rgb(0,0,0))"
    );
}
