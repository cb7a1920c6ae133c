use i3bar_protocol::{Header, HeaderBuilder, ParseError};

#[test]
fn it_builds_header() {
    let header = HeaderBuilder::new()
        .click_events(false)
        .continue_signal(5)
        .stop_signal(libc::SIGKILL)
        .build();

    assert_eq!(header.version(), 1);
    assert_eq!(header.click_events(), false);
    assert_eq!(header.continue_signal(), 5);
    assert_eq!(header.stop_signal(), libc::SIGKILL);
}

#[test]
fn it_serdes_headers() {
    let json = r#"{"version":1,"stop_signal":10,"cont_signal":12,"click_events":true}"#;
    let header: Header = json.parse().expect("Could not parse Header");

    assert_eq!(header.version(), 1);
    assert_eq!(header.click_events(), true);
    assert_eq!(header.continue_signal(), 12);
    assert_eq!(header.stop_signal(), 10);

    assert_eq!(header.to_string(), json);
}

#[test]
fn it_gets_sane_defaults_on_missing_fields_in_json() {
    let json = r#"{"version":1}"#;
    let header: Header = json.parse().expect("Could not parse Header");

    assert_eq!(header.version(), 1);
    assert_eq!(header.click_events(), false);
    assert_eq!(header.continue_signal(), libc::SIGCONT);
    assert_eq!(header.stop_signal(), libc::SIGSTOP);
}

#[test]
fn zero_signals_take_the_platform_defaults() {
    let header = Header::decode(r#"{"version":1,"stop_signal":0,"cont_signal":0}"#).unwrap();
    assert_eq!(header.stop_signal(), libc::SIGSTOP);
    assert_eq!(header.continue_signal(), libc::SIGCONT);
}

#[test]
fn header_without_version_is_invalid() {
    let parsed = Header::decode(r#"{"stop_signal":10}"#);
    assert!(matches!(parsed, Err(ParseError::InvalidData(_))));
}

#[test]
fn header_with_out_of_range_members_is_invalid() {
    assert!(Header::decode(r#"{"version":256}"#).is_err());
    assert!(Header::decode(r#"{"version":1,"stop_signal":2147483648}"#).is_err());
    assert!(Header::decode(r#"{"version":1,"click_events":1}"#).is_err());
}

#[test]
fn negative_signals_are_written_with_a_sign() {
    let header = Header::decode(r#"{"version":2,"stop_signal":-3,"cont_signal":2147483647}"#)
        .unwrap();
    assert_eq!(header.version(), 2);
    assert_eq!(header.stop_signal(), -3);
    assert_eq!(
        header.to_string(),
        r#"{"version":2,"stop_signal":-3,"cont_signal":2147483647,"click_events":false}"#
    );
}

#[test]
fn default_header_and_builder_use_the_platform_signals() {
    let header = Header::default();
    assert_eq!(header.version(), 1);
    assert_eq!(header.stop_signal(), libc::SIGSTOP);
    assert_eq!(header.continue_signal(), libc::SIGCONT);
    assert_eq!(header.click_events(), false);
    assert!(HeaderBuilder::new().build() == header);
}

#[test]
fn header_of_broken_json_is_an_error() {
    assert!(matches!(Header::decode("{version:1}"), Err(ParseError::JsonError(_))));
    assert!(matches!(Header::decode(""), Err(ParseError::ReadError(_))));
}

#[test]
fn header_errors_name_the_member() {
    match Header::decode(r#"{"stop_signal":10}"#) {
        Err(e) => assert_eq!(e.description(), "missing member `version`"),
        Ok(_) => panic!("expected an error"),
    }
    match Header::decode(r#"{"version":1,"cont_signal":"x"}"#) {
        Err(e) => assert_eq!(e.description(), "invalid member `cont_signal`: expected an integer in the range of i32"),
        Ok(_) => panic!("expected an error"),
    }
}

#[test]
fn headers_built_with_given_signals() {
    let header = Header::with_signals(10, 12);
    assert_eq!(header.version(), 1);
    assert_eq!(header.stop_signal(), 10);
    assert_eq!(header.continue_signal(), 12);
    assert_eq!(header.click_events(), false);
    assert!(Header::default() == Header::with_signals(libc::SIGSTOP, libc::SIGCONT));

    let header = HeaderBuilder::with_signals(3, 4).click_events(true).build();
    assert_eq!(header.stop_signal(), 3);
    assert_eq!(header.continue_signal(), 4);
    assert_eq!(header.click_events(), true);
    assert!(HeaderBuilder::new() == HeaderBuilder::with_signals(libc::SIGSTOP, libc::SIGCONT));
}
