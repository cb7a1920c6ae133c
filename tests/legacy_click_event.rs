use i3bar_protocol::{ClickEvent, MouseButton, ParseError};

#[test]
fn lib_it_serdes_mouse_event() {
    let event_string = r#"{"name":"ethernet","instance":"eth0","button":1,"x":1320,"y":1400}"#;
    let event = ClickEvent::from_str(event_string).expect("Failed to parse");

    assert_eq!(event.name(), "ethernet");
    assert_eq!(event.instance(), "eth0");
    assert_eq!(event.button(), MouseButton::Left);
    assert_eq!(event.coordinates(), (1320, 1400));

    assert_eq!(event.to_string(), String::from(event_string));
}

#[test]
fn legacy_event_without_x_is_invalid() {
    let parsed = ClickEvent::from_str(r#"{"name":"ethernet","instance":"eth0","button":1,"y":1400}"#);
    assert!(matches!(parsed, Err(ParseError::InvalidData(_))));
}

#[test]
fn legacy_event_needs_every_member() {
    assert!(ClickEvent::from_str(r#"{"name":"e","button":1,"x":1,"y":2}"#).is_err());
    assert!(ClickEvent::from_str(r#"{"name":"e","instance":"i","button":1,"x":1}"#).is_err());
    assert!(ClickEvent::from_str(r#"{"name":"e","instance":null,"button":1,"x":1,"y":2}"#).is_err());
    let event = ClickEvent::from_str(r#"{"name":"e","instance":"i","button":2,"x":1,"y":2}"#).unwrap();
    assert_eq!(event.x(), 1);
    assert_eq!(event.y(), 2);
}

#[test]
fn errors_carry_a_description() {
    match ClickEvent::from_str("not json") {
        Err(e) => assert!(!e.description().is_empty()),
        Ok(_) => panic!("expected an error"),
    }
}

fn read_value(text: &str) -> Result<serde_json::Value, ParseError> {
    let value: serde_json::Value = serde_json::from_str(text)?;
    Ok(value)
}

#[test]
fn serde_json_errors_convert_by_category() {
    assert!(matches!(read_value("{"), Err(ParseError::ReadError(_))));
    assert!(matches!(read_value("{]"), Err(ParseError::JsonError(_))));
    assert!(read_value("{}").is_ok());
}
