use color_smash::color::Color;
use color_smash::parse::{parse_channel, parse_color};
use color_smash::text::decimal_string;

#[test]
fn parse_channel_reads_plain_numbers() {
    assert_eq!(parse_channel("0"), Some(0));
    assert_eq!(parse_channel("7"), Some(7));
    assert_eq!(parse_channel("42"), Some(42));
    assert_eq!(parse_channel("255"), Some(255));
}

#[test]
fn parse_channel_accepts_a_plus_sign_and_leading_zeros() {
    assert_eq!(parse_channel("+5"), Some(5));
    assert_eq!(parse_channel("+255"), Some(255));
    assert_eq!(parse_channel("007"), Some(7));
    assert_eq!(parse_channel("0000000000000000000255"), Some(255));
    assert_eq!(parse_channel("+000"), Some(0));
}

#[test]
fn parse_channel_rejects_what_is_no_number() {
    assert_eq!(parse_channel(""), None);
    assert_eq!(parse_channel("+"), None);
    assert_eq!(parse_channel("-"), None);
    assert_eq!(parse_channel("-0"), None);
    assert_eq!(parse_channel("-1"), None);
    assert_eq!(parse_channel("++1"), None);
    assert_eq!(parse_channel("1+"), None);
    assert_eq!(parse_channel(" 1"), None);
    assert_eq!(parse_channel("1 "), None);
    assert_eq!(parse_channel("1.0"), None);
    assert_eq!(parse_channel("0x10"), None);
    assert_eq!(parse_channel("ff"), None);
    assert_eq!(parse_channel("12a"), None);
    assert_eq!(parse_channel("\u{0663}"), None);
    assert_eq!(parse_channel("1\u{00e9}"), None);
    assert_eq!(parse_channel("\u{ff11}"), None);
}

#[test]
fn parse_channel_rejects_numbers_out_of_range() {
    assert_eq!(parse_channel("256"), None);
    assert_eq!(parse_channel("260"), None);
    assert_eq!(parse_channel("300"), None);
    assert_eq!(parse_channel("999"), None);
    assert_eq!(parse_channel("1000"), None);
    assert_eq!(parse_channel("65535"), None);
    assert_eq!(parse_channel("99999999999999999999999999"), None);
    assert_eq!(parse_channel("+256"), None);
}

#[test]
fn parse_channel_agrees_with_the_standard_parser() {
    let alphabet = ['0', '1', '2', '5', '6', '9', '+', '-', ' ', 'a'];
    let mut texts: Vec<String> = vec![String::new()];
    let mut from = 0;
    for _ in 0..4 {
        let until = texts.len();
        for i in from..until {
            for c in alphabet {
                let mut longer = texts[i].clone();
                longer.push(c);
                texts.push(longer);
            }
        }
        from = until;
    }
    assert_eq!(texts.len(), 11111);
    for text in &texts {
        assert_eq!(parse_channel(text), text.parse::<u8>().ok(), "{:?}", text);
    }
}

#[test]
fn parse_channel_reads_back_every_decimal_string() {
    for v in 0..=255u8 {
        assert_eq!(parse_channel(&decimal_string(v)), Some(v));
    }
}

#[test]
fn parse_color_needs_all_three_fields() {
    assert_eq!(parse_color("200", "50", "10"), Some(Color::new(200, 50, 10)));
    assert_eq!(parse_color("0", "+0", "000"), Some(Color::new(0, 0, 0)));
    assert_eq!(parse_color("", "50", "10"), None);
    assert_eq!(parse_color("200", "x", "10"), None);
    assert_eq!(parse_color("200", "50", "256"), None);
    assert_eq!(parse_color("300", "300", "300"), None);
}
