use i3bar_protocol::json::JsonValue;
use i3bar_protocol::{Alignment, Markup, MouseButton};

#[test]
fn known_button_codes_round_trip() {
    for code in [1u64, 2, 3, 4, 5, 8, 9] {
        let button = MouseButton::decode(&JsonValue::Unsigned(code)).unwrap();
        assert_ne!(button, MouseButton::Unknown);
        assert_eq!(button.number_code(), code);
    }
    assert_eq!(MouseButton::from_code(1), MouseButton::Left);
    assert_eq!(MouseButton::from_code(2), MouseButton::Middle);
    assert_eq!(MouseButton::from_code(3), MouseButton::Right);
    assert_eq!(MouseButton::from_code(4), MouseButton::WheelUp);
    assert_eq!(MouseButton::from_code(5), MouseButton::WheelDown);
    assert_eq!(MouseButton::from_code(8), MouseButton::Back);
    assert_eq!(MouseButton::from_code(9), MouseButton::Forward);
}

#[test]
fn unknown_button_codes_encode_as_zero() {
    for code in [0u64, 6, 7, 10, 255, u64::MAX] {
        let button = MouseButton::decode(&JsonValue::Unsigned(code)).unwrap();
        assert_eq!(button, MouseButton::Unknown);
        assert_eq!(button.number_code(), 0);
    }
    assert_eq!(MouseButton::from_code(7).number_code(), 0);
}

#[test]
fn button_of_other_kinds_is_an_error() {
    assert!(MouseButton::decode(&JsonValue::Fraction).is_err());
    assert!(MouseButton::decode(&JsonValue::Text(String::from("1"))).is_err());
    assert!(MouseButton::decode(&JsonValue::Null).is_err());
}

#[test]
fn markup_round_trips() {
    for markup in [Markup::Plain, Markup::Pango] {
        assert_eq!(Markup::decode(&markup.encode()).unwrap(), markup);
    }
    assert_eq!(Markup::Plain.symbol(), "none");
    assert_eq!(Markup::Pango.symbol(), "pango");
    assert_eq!(Markup::from_symbol("pango"), Some(Markup::Pango));
    assert_eq!(Markup::from_symbol("Pango"), None);
    assert_eq!(Markup::default(), Markup::Plain);
}

#[test]
fn alignment_round_trips() {
    for alignment in [Alignment::Left, Alignment::Center, Alignment::Right] {
        assert_eq!(Alignment::decode(&alignment.encode()).unwrap(), alignment);
    }
    assert_eq!(Alignment::Center.symbol(), "center");
    assert_eq!(Alignment::from_symbol("right"), Some(Alignment::Right));
    assert_eq!(Alignment::from_symbol("middle"), None);
    assert_eq!(Alignment::default(), Alignment::Left);
}

#[test]
fn unknown_symbols_are_errors() {
    assert!(Markup::decode(&JsonValue::Text(String::from("html"))).is_err());
    assert!(Markup::decode(&JsonValue::Null).is_err());
    assert!(Alignment::decode(&JsonValue::Text(String::from(""))).is_err());
    assert!(Alignment::decode(&JsonValue::Bool(true)).is_err());
}

#[test]
fn negative_button_codes_decode_to_unknown() {
    for code in [-1i64, -7, i64::MIN] {
        let button = MouseButton::decode(&JsonValue::Negative(code)).unwrap();
        assert_eq!(button, MouseButton::Unknown);
        assert_eq!(button.number_code(), 0);
    }
}

#[test]
fn unknown_symbol_errors_name_the_string_and_the_vocabulary() {
    match Markup::decode(&JsonValue::Text(String::from("Pango"))) {
        Err(e) => assert_eq!(e.description(), "unknown variant `Pango`, expected one of `none`, `pango`"),
        Ok(_) => panic!("expected an error"),
    }
    match Alignment::decode(&JsonValue::Text(String::from("centre"))) {
        Err(e) => assert_eq!(
            e.description(),
            "unknown variant `centre`, expected one of `left`, `center`, `right`"
        ),
        Ok(_) => panic!("expected an error"),
    }
}
