use i3bar_protocol::click_event::{ClickEvent, ClickEventBuilder};
use i3bar_protocol::{MouseButton, ParseError};

#[test]
fn it_allows_building_of_click_events() {
    let small_event = ClickEventBuilder::new("name", MouseButton::Right).build();
    assert_eq!(small_event.name(), "name");
    assert_eq!(small_event.instance(), None);
    assert_eq!(small_event.button(), MouseButton::Right);
    assert_eq!(small_event.coordinates(), None);

    let big_event = ClickEventBuilder::new("name", MouseButton::Right)
        .instance("instance")
        .coordinates(100, 200)
        .build();
    assert_eq!(big_event.name(), "name");
    assert_eq!(big_event.instance(), Some("instance"));
    assert_eq!(big_event.button(), MouseButton::Right);
    assert_eq!(big_event.coordinates(), Some((100, 200)));
}

#[test]
fn click_event_it_serdes_mouse_event() {
    let event_string = r#"{"name":"ethernet","instance":"eth0","button":1,"x":1320,"y":1400}"#;
    let event = ClickEvent::from_str(event_string).expect("Failed to parse");

    assert_eq!(event.name(), "ethernet");
    assert_eq!(event.instance(), Some("eth0"));
    assert_eq!(event.button(), MouseButton::Left);
    assert_eq!(event.coordinates(), Some((1320, 1400)));

    assert_eq!(event.to_string(), String::from(event_string));
}

#[test]
fn absent_members_are_written_as_null() {
    let event = ClickEventBuilder::new("clock", MouseButton::WheelUp).build();
    assert_eq!(
        event.to_string(),
        r#"{"name":"clock","instance":null,"button":4,"x":null,"y":null}"#
    );
}

#[test]
fn names_are_escaped_when_written() {
    let event = ClickEventBuilder::new("a\"b\\c", MouseButton::Unknown)
        .coordinates(0, 4294967295)
        .build();
    let text = event.to_string();
    assert_eq!(
        text,
        r#"{"name":"a\"b\\c","instance":null,"button":0,"x":0,"y":4294967295}"#
    );
    assert_eq!(ClickEvent::from_str(&text).unwrap(), event);
}

#[test]
fn one_coordinate_alone_gives_no_coordinates() {
    let event = ClickEvent::from_str(r#"{"name":"n","button":3,"x":5}"#).unwrap();
    assert_eq!(event.x(), Some(5));
    assert_eq!(event.y(), None);
    assert_eq!(event.coordinates(), None);
    assert_eq!(event.instance(), None);
}

#[test]
fn unknown_button_codes_are_accepted() {
    let event = ClickEvent::from_str(r#"{"name":"n","button":7}"#).unwrap();
    assert_eq!(event.button(), MouseButton::Unknown);
}

#[test]
fn click_event_without_button_is_invalid() {
    let parsed = ClickEvent::from_str(r#"{"name":"n","x":1,"y":2}"#);
    assert!(matches!(parsed, Err(ParseError::InvalidData(_))));
    let parsed = ClickEvent::from_str(r#"{"name":"n","button":"1"}"#);
    assert!(matches!(parsed, Err(ParseError::InvalidData(_))));
    let parsed = ClickEvent::from_str(r#"{"name":"n","button":1,"x":4294967296}"#);
    assert!(matches!(parsed, Err(ParseError::InvalidData(_))));
}

#[test]
fn negative_button_codes_are_accepted_as_unknown() {
    let event = ClickEvent::from_str(r#"{"name":"n","button":-1}"#).unwrap();
    assert_eq!(event.button(), MouseButton::Unknown);
    assert_eq!(event.to_string(), r#"{"name":"n","instance":null,"button":0,"x":null,"y":null}"#);
}

#[test]
fn instance_can_be_set_and_cleared() {
    let event = ClickEventBuilder::new("n", MouseButton::Left)
        .instance_opt(Some("i"))
        .build();
    assert_eq!(event.instance(), Some("i"));
    let event = ClickEventBuilder::new("n", MouseButton::Left)
        .instance("i")
        .instance_opt(None)
        .build();
    assert_eq!(event.instance(), None);
}

#[test]
fn control_characters_are_escaped() {
    let event = ClickEventBuilder::new("a\tb\nc\u{1}d\u{8}e\u{c}f\rg/", MouseButton::Left).build();
    assert_eq!(
        event.to_string(),
        r#"{"name":"a\tb\nc\u0001d\be\ff\rg/","instance":null,"button":1,"x":null,"y":null}"#
    );
}

#[test]
fn click_event_errors_name_the_member() {
    match ClickEvent::from_str(r#"{"button":1}"#) {
        Err(e) => assert_eq!(e.description(), "missing member `name`"),
        Ok(_) => panic!("expected an error"),
    }
    match ClickEvent::from_str(r#"{"name":"n","button":1,"x":-5}"#) {
        Err(e) => assert_eq!(e.description(), "invalid member `x`: expected an integer in the range of u32 or null"),
        Ok(_) => panic!("expected an error"),
    }
}
