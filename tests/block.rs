use i3bar_protocol::json::JsonValue;
use i3bar_protocol::{Alignment, Block, Markup, MinWidth, ParseError};

#[test]
fn it_deserializes_minwidth_numbers() {
    let parsed: MinWidth = MinWidth::from_str("56").expect("Could not parse small number");
    assert_eq!(parsed, MinWidth::Pixels(56));

    let parsed: MinWidth = MinWidth::from_str("0").expect("Could not parse zero");
    assert_eq!(parsed, MinWidth::Pixels(0));

    let parsed: Result<MinWidth, _> = MinWidth::from_str("-56");
    assert!(parsed.is_err());

    let parsed: Result<MinWidth, _> = MinWidth::from_str("5.6");
    assert!(parsed.is_err());

    let parsed: MinWidth =
        MinWidth::from_str("1234567890000").expect("Could not parse very large number");
    assert_eq!(parsed, MinWidth::Pixels(::std::u32::MAX));
}

#[test]
fn it_deserializes_minwidth_strings() {
    let parsed: MinWidth = MinWidth::from_str("\"hello world\"").expect("Could not parse text");
    assert_eq!(parsed, MinWidth::Example(String::from("hello world")));

    let parsed: MinWidth =
        MinWidth::from_str("\"14\"").expect("Could not parse number-like string");
    assert_eq!(parsed, MinWidth::Example(String::from("14")));
}

#[test]
fn it_serializes_minwidth() {
    let pixels = MinWidth::Pixels(500);
    let example = MinWidth::Example(String::from("Example text"));

    assert_eq!(pixels.to_string(), "500");
    assert_eq!(example.to_string(), "\"Example text\"");
}

#[test]
fn it_parses_minimal_block() {
    let json = r#"{"full_text":"E: 10.0.0.1 (1000 Mbit/s)"}"#;
    let block = Block::from_str(json).expect("Could not parse");

    assert_eq!(block.full_text(), "E: 10.0.0.1 (1000 Mbit/s)");
    assert_eq!(block.name(), None);
    assert_eq!(block.instance(), None);
    assert_eq!(block.short_text(), None);
    assert_eq!(block.alignment(), Alignment::Left);
    assert_eq!(block.markup(), Markup::Plain);
    assert_eq!(block.min_width(), None);
}

#[test]
fn it_parses_full_block() {
    let json = r##"
        {
         "full_text": "E: 10.0.0.1 (1000 Mbit/s)",
         "short_text": "10.0.0.1",
         "color": "#00ff00",
         "background": "#1c1c1c",
         "border": "#ee0000",
         "min_width": 300,
         "align": "right",
         "urgent": false,
         "name": "ethernet",
         "instance": "eth0",
         "separator": true,
         "separator_block_width": 9
        }
    "##;
    let block = Block::from_str(json).expect("Could not parse");

    assert_eq!(block.full_text(), "E: 10.0.0.1 (1000 Mbit/s)");
    assert_eq!(block.short_text(), Some("10.0.0.1"));
    assert_eq!(block.color(), Some("#00ff00"));
    assert_eq!(block.background(), Some("#1c1c1c"));
    assert_eq!(block.border(), Some("#ee0000"));
    assert_eq!(block.min_width(), Some(&MinWidth::Pixels(300)));
    assert_eq!(block.alignment(), Alignment::Right);
    assert_eq!(block.is_urgent(), false);
    assert_eq!(block.name(), Some("ethernet"));
    assert_eq!(block.instance(), Some("eth0"));
    assert_eq!(block.has_separator(), true);
    assert_eq!(block.separator_block_width(), Some(9));
}

#[test]
fn minimal_block_has_no_optional_members() {
    let block = Block::from_str(r#"{"full_text":"x"}"#).expect("Could not parse");
    assert_eq!(block.color(), None);
    assert_eq!(block.background(), None);
    assert_eq!(block.border(), None);
    assert_eq!(block.is_urgent(), false);
    assert_eq!(block.has_separator(), false);
    assert_eq!(block.separator_block_width(), None);
}

#[test]
fn block_takes_pango_markup_and_center_alignment() {
    let block = Block::from_str(r#"{"full_text":"x","markup":"pango","align":"center"}"#)
        .expect("Could not parse");
    assert_eq!(block.markup(), Markup::Pango);
    assert_eq!(block.alignment(), Alignment::Center);
}

#[test]
fn block_takes_an_example_width_and_null_members() {
    let block = Block::from_str(r#"{"full_text":"x","min_width":"100%","name":null,"min_width_unused":[1]}"#)
        .expect("Could not parse");
    assert_eq!(block.min_width(), Some(&MinWidth::Example(String::from("100%"))));
    assert_eq!(block.name(), None);
}

#[test]
fn block_without_full_text_is_invalid() {
    let parsed = Block::from_str(r#"{"name":"ethernet"}"#);
    assert!(matches!(parsed, Err(ParseError::InvalidData(_))));
}

#[test]
fn block_with_unknown_markup_is_invalid() {
    let parsed = Block::from_str(r#"{"full_text":"x","markup":"html"}"#);
    match parsed {
        Err(ParseError::InvalidData(message)) => assert!(message.contains("html")),
        _ => panic!("expected invalid data"),
    }
}

#[test]
fn block_with_unknown_alignment_is_invalid() {
    let parsed = Block::from_str(r#"{"full_text":"x","align":"justify"}"#);
    assert!(matches!(parsed, Err(ParseError::InvalidData(_))));
}

#[test]
fn block_with_negative_width_is_invalid() {
    let parsed = Block::from_str(r#"{"full_text":"x","min_width":-1}"#);
    assert!(matches!(parsed, Err(ParseError::InvalidData(_))));
}

#[test]
fn block_with_mistyped_flag_is_invalid() {
    let parsed = Block::from_str(r#"{"full_text":"x","urgent":"yes"}"#);
    assert!(matches!(parsed, Err(ParseError::InvalidData(_))));
}

#[test]
fn block_that_is_not_an_object_is_invalid() {
    let parsed = Block::from_str("[1, 2]");
    assert!(matches!(parsed, Err(ParseError::InvalidData(_))));
}

#[test]
fn block_of_broken_json_is_a_json_error() {
    let parsed = Block::from_str(r#"{"full_text" 1}"#);
    assert!(matches!(parsed, Err(ParseError::JsonError(_))));
}

#[test]
fn block_of_truncated_input_is_a_read_error() {
    let parsed = Block::from_str(r#"{"full_text":"#);
    assert!(matches!(parsed, Err(ParseError::ReadError(_))));
}

#[test]
fn width_of_other_kinds_is_an_error() {
    assert!(MinWidth::from_str("true").is_err());
    assert!(MinWidth::from_str("null").is_err());
    assert!(MinWidth::from_str("[300]").is_err());
    assert!(MinWidth::from_str("{}").is_err());
}

#[test]
fn width_at_the_edges_of_u32() {
    assert_eq!(MinWidth::from_str("4294967295").unwrap(), MinWidth::Pixels(4294967295));
    assert_eq!(MinWidth::from_str("4294967296").unwrap(), MinWidth::Pixels(u32::MAX));
}

#[test]
fn width_round_trips_through_text() {
    let example = MinWidth::Example(String::from("say \"hi\""));
    let text = example.to_string();
    assert_eq!(text, "\"say \\\"hi\\\"\"");
    assert_eq!(MinWidth::from_str(&text).unwrap(), example);
    let pixels = MinWidth::Pixels(0);
    assert_eq!(MinWidth::from_str(&pixels.to_string()).unwrap(), pixels);
}

#[test]
fn width_decodes_from_values() {
    assert_eq!(MinWidth::decode(&JsonValue::Unsigned(7)).unwrap(), MinWidth::Pixels(7));
    assert!(MinWidth::decode(&JsonValue::Negative(-7)).is_err());
    assert!(MinWidth::decode(&JsonValue::Fraction).is_err());
    assert_eq!(MinWidth::from(12u32), MinWidth::Pixels(12));
    assert_eq!(MinWidth::from(String::from("ab")), MinWidth::Example(String::from("ab")));
}

#[test]
fn minimal_block_is_written_with_every_member() {
    let block = Block::from_str(r#"{"full_text":"x"}"#).unwrap();
    assert_eq!(
        block.to_string(),
        r#"{"name":null,"instance":null,"full_text":"x","urgent":false,"separator":false,"markup":"none","align":"left","short_text":null,"color":null,"background":null,"border":null,"min_width":null,"separator_block_width":null}"#
    );
}

#[test]
fn full_block_round_trips_through_text() {
    let json = r##"{"name":"ethernet","instance":"eth0","full_text":"E: 10.0.0.1","urgent":true,"separator":true,"markup":"pango","align":"center","short_text":"10.0.0.1","color":"#00ff00","background":"#1c1c1c","border":"#ee0000","min_width":"wide text","separator_block_width":9}"##;
    let block = Block::from_str(json).unwrap();
    assert_eq!(block.to_string(), json);
    let again = Block::from_str(&block.to_string()).unwrap();
    assert_eq!(again.min_width(), Some(&MinWidth::Example(String::from("wide text"))));
    assert_eq!(again.is_urgent(), true);
}

#[test]
fn width_errors_name_the_accepted_kinds() {
    match MinWidth::from_str("true") {
        Err(e) => assert!(e.description().contains("a positive integer or a string")),
        Ok(_) => panic!("expected an error"),
    }
    match Block::from_str(r#"{"full_text":"x","min_width":5.5}"#) {
        Err(e) => assert_eq!(
            e.description(),
            "invalid member `min_width`: expected a positive integer or a string"
        ),
        Ok(_) => panic!("expected an error"),
    }
}

#[test]
fn block_vocabulary_errors_name_the_string_and_the_accepted_ones() {
    match Block::from_str(r#"{"full_text":"x","markup":"Pango"}"#) {
        Err(ParseError::InvalidData(message)) => {
            assert!(message.contains("Pango"));
            assert!(message.contains("`none`") && message.contains("`pango`"));
        }
        _ => panic!("expected invalid data"),
    }
    match Block::from_str(r#"{"full_text":"x","align":"centre"}"#) {
        Err(ParseError::InvalidData(message)) => {
            assert!(message.contains("centre"));
            assert!(message.contains("`left`") && message.contains("`center`") && message.contains("`right`"));
        }
        _ => panic!("expected invalid data"),
    }
}

#[test]
fn block_error_is_that_of_the_first_failing_member() {
    match Block::from_str(r#"{"urgent":3}"#) {
        Err(e) => assert_eq!(e.description(), "missing member `full_text`"),
        Ok(_) => panic!("expected an error"),
    }
    match Block::from_str(r#"{"full_text":"x","urgent":3,"color":1}"#) {
        Err(e) => assert_eq!(e.description(), "invalid member `urgent`: expected a boolean"),
        Ok(_) => panic!("expected an error"),
    }
}
