use workshop_led::color::{Color, NoSuchColor, COLOR_BLUE, COLOR_GREEN, COLOR_RED};
use workshop_led::webserver::{color_json, handle_color_post};

#[test]
fn parses_color_names() {
    assert_eq!(Color::from_str("red"), Ok(Color::Red));
    assert_eq!(Color::from_str("green"), Ok(Color::Green));
    assert_eq!(Color::from_str("blue"), Ok(Color::Blue));
}

#[test]
fn refuses_other_names() {
    assert_eq!(Color::from_str("Red"), Err(NoSuchColor));
    assert_eq!(Color::from_str("rad"), Err(NoSuchColor));
    assert_eq!(Color::from_str(""), Err(NoSuchColor));
    assert_eq!(Color::from_str("greens"), Err(NoSuchColor));
    assert_eq!(Color::from_str("blu"), Err(NoSuchColor));
    assert_eq!(Color::from_str("yellow"), Err(NoSuchColor));
    assert_eq!(Color::from_str("bleu"), Err(NoSuchColor));
}

#[test]
fn names_round_trip() {
    for c in [Color::Red, Color::Green, Color::Blue] {
        assert_eq!(Color::from_str(c.name()), Ok(c));
    }
    assert_eq!(Color::Red.name(), "red");
    assert_eq!(Color::Green.name(), "green");
    assert_eq!(Color::Blue.name(), "blue");
}

#[test]
fn from_str_trait_agrees() {
    let c: Color = "green".parse().unwrap();
    assert_eq!(c, Color::Green);
    assert!("purple".parse::<Color>().is_err());
}

#[test]
fn color_codes() {
    assert_eq!(u8::from(Color::Red), 0);
    assert_eq!(u8::from(Color::Green), 1);
    assert_eq!(u8::from(Color::Blue), 2);
    assert_eq!((COLOR_RED, COLOR_GREEN, COLOR_BLUE), (0, 1, 2));
}

#[test]
fn codes_round_trip() {
    for c in [Color::Red, Color::Green, Color::Blue] {
        assert_eq!(Color::from_code(u8::from(c)), Some(c));
    }
    for code in 3..=255u8 {
        assert_eq!(Color::from_code(code), None);
    }
}

#[test]
fn json_bodies() {
    assert_eq!(color_json(Color::Red), r#"{"color":"red"}"#);
    assert_eq!(color_json(Color::Green), r#"{"color":"green"}"#);
    assert_eq!(color_json(Color::Blue), r#"{"color":"blue"}"#);
}

#[test]
fn post_color_route() {
    assert_eq!(handle_color_post("blue"), Ok((Color::Blue, r#"{"color":"blue"}"#)));
    assert_eq!(handle_color_post("red"), Ok((Color::Red, r#"{"color":"red"}"#)));
    assert_eq!(handle_color_post("magenta"), Err(NoSuchColor));
}
