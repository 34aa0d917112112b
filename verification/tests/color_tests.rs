use tiny_color::Color;

#[test]
fn construct_keeps_channels() {
    let c = Color::new(12, 34, 56);
    assert_eq!(c.r, 12);
    assert_eq!(c.g, 34);
    assert_eq!(c.b, 56);
}

#[test]
fn colors_compare_by_channels() {
    assert_eq!(Color::new(1, 2, 3), Color::new(1, 2, 3));
    assert_ne!(Color::new(1, 2, 3), Color::new(1, 2, 4));
    assert_ne!(Color::new(1, 2, 3), Color::new(1, 4, 3));
    assert_ne!(Color::new(1, 2, 3), Color::new(4, 2, 3));
}

#[test]
fn to_hex_red() {
    assert_eq!(Color::new(255, 0, 0).to_hex(), "#FF0000");
}

#[test]
fn to_hex_mixed_digits() {
    assert_eq!(Color::new(1, 2, 3).to_hex(), "#010203");
    assert_eq!(Color::new(171, 205, 239).to_hex(), "#ABCDEF");
    assert_eq!(Color::new(16, 160, 10).to_hex(), "#10A00A");
}

#[test]
fn to_hex_boundary_values() {
    assert_eq!(Color::new(0, 0, 0).to_hex(), "#000000");
    assert_eq!(Color::new(255, 255, 255).to_hex(), "#FFFFFF");
}

#[test]
fn to_hex_is_canonical_form() {
    for &(r, g, b) in &[
        (0u8, 0u8, 0u8),
        (255, 255, 255),
        (1, 15, 16),
        (200, 100, 50),
        (9, 10, 11),
    ] {
        let s = Color::new(r, g, b).to_hex();
        assert_eq!(s.len(), 7);
        let chars: Vec<char> = s.chars().collect();
        assert_eq!(chars[0], '#');
        for &c in &chars[1..] {
            assert!(c.is_ascii_digit() || ('A'..='F').contains(&c));
        }
    }
}

#[test]
fn parse_hex_uppercase() {
    assert_eq!(Color::parse_hex("#FF0000").unwrap(), Color::new(255, 0, 0));
}

#[test]
fn parse_hex_is_case_insensitive() {
    assert_eq!(Color::parse_hex("#ff0000").unwrap(), Color::new(255, 0, 0));
    assert_eq!(Color::parse_hex("#Ff0000").unwrap(), Color::new(255, 0, 0));
    assert_eq!(Color::parse_hex("#FF0000").unwrap(), Color::new(255, 0, 0));
    assert_eq!(Color::parse_hex("#abcdef").unwrap(), Color::new(171, 205, 239));
    assert_eq!(Color::parse_hex("#AbCdEf").unwrap(), Color::new(171, 205, 239));
}

#[test]
fn parse_hex_boundary_values() {
    assert_eq!(Color::parse_hex("#000000").unwrap(), Color::new(0, 0, 0));
    assert_eq!(Color::parse_hex("#FFFFFF").unwrap(), Color::new(255, 255, 255));
}

#[test]
fn parse_hex_rejects_missing_prefix() {
    let err = Color::parse_hex("FF0000").unwrap_err();
    assert_eq!(err.input, "FF0000");
}

#[test]
fn parse_hex_rejects_wrong_length() {
    assert!(Color::parse_hex("#FF00").is_err());
    assert!(Color::parse_hex("").is_err());
    assert!(Color::parse_hex("#").is_err());
    assert!(Color::parse_hex("#FF00000").is_err());
    assert!(Color::parse_hex("#FF0000 ").is_err());
}

#[test]
fn parse_hex_rejects_non_hex_digits() {
    let err = Color::parse_hex("#GGHHII").unwrap_err();
    assert_eq!(err.input, "#GGHHII");
    assert!(Color::parse_hex("#FF000G").is_err());
    assert!(Color::parse_hex("#FF 000").is_err());
    assert!(Color::parse_hex("# F0000").is_err());
}

#[test]
fn parse_hex_rejects_seven_char_non_ascii() {
    assert!(Color::parse_hex("#éé0000").is_err());
    assert!(Color::parse_hex("écécécé").is_err());
}

#[test]
fn parse_error_message_names_input() {
    let err = Color::parse_hex("#FF00").unwrap_err();
    assert_eq!(err.message(), "invalid color string: #FF00");
}

#[test]
fn parse_via_from_str() {
    let c = "#FF0000".parse::<Color>().unwrap();
    assert_eq!(c, Color::new(255, 0, 0));
    assert!("red".parse::<Color>().is_err());
}

#[test]
fn round_trip_samples() {
    for &(r, g, b) in &[
        (0u8, 0u8, 0u8),
        (255, 255, 255),
        (255, 0, 0),
        (0, 255, 0),
        (0, 0, 255),
        (1, 2, 3),
        (16, 32, 64),
        (15, 15, 15),
        (240, 15, 170),
    ] {
        let c = Color::new(r, g, b);
        assert_eq!(Color::parse_hex(&c.to_hex()).unwrap(), c);
    }
}

#[test]
fn round_trip_full_red_channel() {
    for r in 0u8..=255 {
        let c = Color::new(r, 7, 250);
        assert_eq!(Color::parse_hex(&c.to_hex()).unwrap(), c);
    }
}

#[test]
fn canonical_strings_reproduce_exactly() {
    for s in ["#000000", "#FFFFFF", "#0A1B2C", "#FEDCBA", "#09AF90"] {
        assert_eq!(Color::parse_hex(s).unwrap().to_hex(), s);
    }
}

#[test]
fn scenario_red() {
    assert_eq!(Color::parse_hex("#FF0000").unwrap(), Color::new(255, 0, 0));
    assert_eq!(Color::new(255, 0, 0).to_hex(), "#FF0000");
}
