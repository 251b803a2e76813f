use plumbob::color::{parse_color, trim_hashes, ColorError};

#[test]
fn parse_color_hex_forms() {
    assert_eq!(parse_color("#FF8000"), Ok((0xff, 0x80, 0x00)));
    assert_eq!(parse_color("ff8000"), Ok((0xff, 0x80, 0x00)));
    assert_eq!(parse_color("##42d854"), Ok((0x42, 0xd8, 0x54)));
    assert_eq!(parse_color("#aBcDeF"), Ok((0xab, 0xcd, 0xef)));
    assert_eq!(parse_color("000000"), Ok((0, 0, 0)));
}

#[test]
fn parse_color_plus_sign_pairs() {
    assert_eq!(parse_color("+F+F+F"), Err(ColorError::InvalidDigit));
    assert_eq!(parse_color("#+f+f+f"), Err(ColorError::InvalidDigit));
    assert_eq!(parse_color("#+a00+0"), Err(ColorError::InvalidDigit));
}

#[test]
fn parse_color_pairs_split_by_wide_characters() {
    assert_eq!("aé123".len(), 6);
    assert_eq!(parse_color("aé123"), Err(ColorError::InvalidDigit));
    assert_eq!(parse_color("#1€12"), Err(ColorError::InvalidDigit));
    assert_eq!(parse_color("€€"), Err(ColorError::InvalidDigit));
}

#[test]
fn parse_color_wrong_length() {
    assert_eq!(parse_color("#FFF"), Err(ColorError::WrongLength("FFF".to_string())));
    assert_eq!(parse_color(""), Err(ColorError::WrongLength(String::new())));
    assert_eq!(parse_color("###"), Err(ColorError::WrongLength(String::new())));
    assert_eq!(parse_color("#FF80001"), Err(ColorError::WrongLength("FF80001".to_string())));
    assert_eq!(parse_color("FF80#0"), Err(ColorError::InvalidDigit));
    assert_eq!(parse_color("éééé"), Err(ColorError::WrongLength("éééé".to_string())));
}

#[test]
fn parse_color_error_messages() {
    assert_eq!(parse_color("#fff").unwrap_err().to_string(), "expected #RRGGBB, got: fff");
    assert_eq!(
        parse_color("#ff80001").unwrap_err().to_string(),
        "expected #RRGGBB, got: ff80001"
    );
    assert!(parse_color("").is_err());
    assert_eq!(parse_color("#zz0000").unwrap_err().to_string(), "invalid digit found in string");
}

#[test]
fn parse_color_invalid_digits() {
    assert_eq!(parse_color("#GG0000"), Err(ColorError::InvalidDigit));
    assert_eq!(parse_color("-10000"), Err(ColorError::InvalidDigit));
    assert_eq!(parse_color("++0000"), Err(ColorError::InvalidDigit));
    assert_eq!(parse_color("0000 1"), Err(ColorError::InvalidDigit));
    assert_eq!(parse_color("1+0000"), Err(ColorError::InvalidDigit));
    assert_eq!(parse_color("ééé"), Err(ColorError::InvalidDigit));
}

#[test]
fn parse_color_reads_back_formatted_colors() {
    for r in (0..=255u16).step_by(5) {
        for g in (0..=255u16).step_by(17) {
            for b in [0u16, 1, 127, 128, 254, 255] {
                let c = (r as u8, g as u8, b as u8);
                let upper = format!("#{:02X}{:02X}{:02X}", c.0, c.1, c.2);
                let lower = format!("{:02x}{:02x}{:02x}", c.0, c.1, c.2);
                assert_eq!(parse_color(&upper), Ok(c));
                assert_eq!(parse_color(&lower), Ok(c));
            }
        }
    }
}

#[test]
fn trim_hashes_removes_only_leading_hashes() {
    assert_eq!(trim_hashes("##ab#"), "ab#");
    assert_eq!(trim_hashes("abc"), "abc");
    assert_eq!(trim_hashes("###"), "");
    assert_eq!(trim_hashes("#é"), "é");
}
