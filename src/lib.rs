//! Records of the status bar protocol and their JSON codec: the header that
//! opens a stream, the blocks of a status line and the click events that come
//! back.
//!
//! Two shapes of click event exist side by side: [`ClickEvent`] here, of the
//! older protocol, where every member is required, and
//! [`click_event::ClickEvent`], where instance and coordinates may be absent.
use crate::click_event::{button_failure, decode_button_member, required_button};
use crate::mouse_button::lemma_button_codes;
use crate::json::{
    member_failure, message_of,
    decode_required_text, decode_required_u32, json_document, lookup, members_view, object_text,
    parse_object, required_text, required_u32, write_object, DocumentView, JsonValue, JsonView,
    Members,
};
use vstd::prelude::*;
use vstd::string::*;

pub mod block;
pub mod click_event;
pub mod enums;
pub mod header;
pub mod json;
pub mod mouse_button;

pub use block::{Block, MinWidth};
pub use enums::{Alignment, Markup};
pub use header::{Header, HeaderBuilder};
pub use mouse_button::MouseButton;

verus! {

/// Why a text could not be decoded into a record.
#[derive(Debug, Clone)]
pub enum ParseError {
    /// The input ended early or could not be read.
    ReadError(String),
    /// The input is not valid JSON.
    JsonError(String),
    /// The input is valid JSON but not of the record's shape.
    InvalidData(String),
}

impl ParseError {
    /// The description that the error carries.
    pub fn description(&self) -> (r: &str)
        ensures
            r@ == (match self {
                ParseError::ReadError(s) => s@,
                ParseError::JsonError(s) => s@,
                ParseError::InvalidData(s) => s@,
            }),
    {
        match self {
            ParseError::ReadError(s) => s.as_str(),
            ParseError::JsonError(s) => s.as_str(),
            ParseError::InvalidData(s) => s.as_str(),
        }
    }
}

/// A click on a block, in the older protocol: every member is required.
#[derive(Debug)]
pub struct ClickEvent {
    name: String,
    instance: String,
    button: MouseButton,
    x: u32,
    y: u32,
}

/// The mathematical counterpart of [`ClickEvent`].
pub struct LegacyClickView {
    pub name: Seq<char>,
    pub instance: Seq<char>,
    pub button: MouseButton,
    pub x: u32,
    pub y: u32,
}

impl View for ClickEvent {
    type V = LegacyClickView;

    closed spec fn view(&self) -> LegacyClickView {
        LegacyClickView {
            name: self.name@,
            instance: self.instance@,
            button: self.button,
            x: self.x,
            y: self.y,
        }
    }
}

impl PartialEq for ClickEvent {
    fn eq(&self, other: &ClickEvent) -> (r: bool)
        ensures
            r == (self@ == other@),
    {
        self.name == other.name && self.instance == other.instance && self.button
            == other.button && self.x == other.x && self.y == other.y
    }
}

impl vstd::std_specs::cmp::PartialEqSpecImpl for ClickEvent {
    open spec fn obeys_eq_spec() -> bool {
        true
    }

    open spec fn eq_spec(&self, other: &ClickEvent) -> bool {
        self@ == other@
    }
}

/// Whether an object's members make an event of the older protocol: all
/// five members are there, each of the right kind.
pub open spec fn legacy_click_decodes(m: Seq<(Seq<char>, JsonView)>) -> bool {
    &&& required_text(lookup(m, "name"@)) is Some
    &&& required_text(lookup(m, "instance"@)) is Some
    &&& required_button(lookup(m, "button"@)) is Some
    &&& required_u32(lookup(m, "x"@)) is Some
    &&& required_u32(lookup(m, "y"@)) is Some
}

/// The message of the error for an object's members that make no event of
/// the older protocol: that of the first member, in the order of the fields,
/// that fails.
pub open spec fn legacy_click_error(m: Seq<(Seq<char>, JsonView)>) -> Seq<char> {
    if required_text(lookup(m, "name"@)) is None {
        member_failure(lookup(m, "name"@), "name"@, "a string"@)
    } else if required_text(lookup(m, "instance"@)) is None {
        member_failure(lookup(m, "instance"@), "instance"@, "a string"@)
    } else if required_button(lookup(m, "button"@)) is None {
        button_failure(lookup(m, "button"@))
    } else if required_u32(lookup(m, "x"@)) is None {
        member_failure(lookup(m, "x"@), "x"@, "an integer in the range of u32"@)
    } else {
        member_failure(lookup(m, "y"@), "y"@, "an integer in the range of u32"@)
    }
}

/// The event that an object's members make, where `legacy_click_decodes`
/// holds.
pub open spec fn decoded_legacy_click(m: Seq<(Seq<char>, JsonView)>) -> LegacyClickView {
    LegacyClickView {
        name: required_text(lookup(m, "name"@))->0,
        instance: required_text(lookup(m, "instance"@))->0,
        button: required_button(lookup(m, "button"@))->0,
        x: required_u32(lookup(m, "x"@))->0,
        y: required_u32(lookup(m, "y"@))->0,
    }
}

/// The members that an event of the older protocol is written as.
pub open spec fn legacy_click_members(e: LegacyClickView) -> Seq<(Seq<char>, JsonView)> {
    seq![
        ("name"@, JsonView::Text(e.name)),
        ("instance"@, JsonView::Text(e.instance)),
        ("button"@, JsonView::Unsigned(e.button.code())),
        ("x"@, JsonView::Unsigned(e.x as u64)),
        ("y"@, JsonView::Unsigned(e.y as u64)),
    ]
}

impl ClickEvent {
    /// Makes an event of an object's members.
    pub fn from_members(m: &Members) -> (r: Result<ClickEvent, ParseError>)
        ensures
            r is Ok <==> legacy_click_decodes(members_view(m@)),
            r is Ok ==> r->Ok_0@ == decoded_legacy_click(members_view(m@)),
            r is Err ==> r->Err_0 is InvalidData && message_of(r->Err_0) == legacy_click_error(
                members_view(m@),
            ),
    {
        let name = decode_required_text(m, "name")?;
        let instance = decode_required_text(m, "instance")?;
        let button = decode_button_member(m)?;
        let x = decode_required_u32(m, "x")?;
        let y = decode_required_u32(m, "y")?;
        Ok(ClickEvent { name, instance, button, x, y })
    }

    /// Decodes an event from a JSON text.
    pub fn from_str(text: &str) -> (r: Result<ClickEvent, ParseError>)
        ensures
            match json_document(text@) {
                Some(DocumentView::Object(m)) => (r is Ok <==> legacy_click_decodes(m)) && (r is Ok
                    ==> r->Ok_0@ == decoded_legacy_click(m)) && (r is Err
                    ==> r->Err_0 is InvalidData && message_of(r->Err_0) == legacy_click_error(m)),
                Some(DocumentView::Value(_)) => r is Err && r->Err_0 is InvalidData,
                None => r is Err,
            },
    {
        let m = parse_object(text)?;
        ClickEvent::from_members(&m)
    }

    /// The members that this event is written as.
    pub fn to_members(&self) -> (r: Members)
        ensures
            members_view(r@) == legacy_click_members(self@),
    {
        let mut m: Members = Vec::new();
        m.push((String::from_str("name"), JsonValue::Text(self.name.clone())));
        m.push((String::from_str("instance"), JsonValue::Text(self.instance.clone())));
        m.push((String::from_str("button"), self.button.encode()));
        m.push((String::from_str("x"), JsonValue::Unsigned(self.x as u64)));
        m.push((String::from_str("y"), JsonValue::Unsigned(self.y as u64)));
        assert(members_view(m@) =~= legacy_click_members(self@));
        m
    }

    /// The compact JSON text of this event, members in a fixed order.
    pub fn to_string(&self) -> (r: String)
        ensures
            r@ == object_text(legacy_click_members(self@)),
    {
        let m = self.to_members();
        write_object(&m)
    }

    pub fn name(&self) -> (r: &str)
        ensures
            r@ == self@.name,
    {
        self.name.as_str()
    }

    pub fn instance(&self) -> (r: &str)
        ensures
            r@ == self@.instance,
    {
        self.instance.as_str()
    }

    pub fn button(&self) -> (r: MouseButton)
        ensures
            r == self@.button,
    {
        self.button
    }

    pub fn coordinates(&self) -> (r: (u32, u32))
        ensures
            r == (self@.x, self@.y),
    {
        (self.x, self.y)
    }

    pub fn x(&self) -> (r: u32)
        ensures
            r == self@.x,
    {
        self.x
    }

    pub fn y(&self) -> (r: u32)
        ensures
            r == self@.y,
    {
        self.y
    }
}

/// An object without an `x` member is no event of the older protocol,
/// whatever else it holds.
pub proof fn lemma_legacy_click_requires_x(m: Seq<(Seq<char>, JsonView)>)
    requires
        lookup(m, "x"@) is None,
    ensures
        !legacy_click_decodes(m),
{
}

/// Decoding the members that an event of the older protocol is written as
/// gives the event back.
pub proof fn lemma_legacy_click_round_trip(e: LegacyClickView)
    ensures
        legacy_click_decodes(legacy_click_members(e)),
        decoded_legacy_click(legacy_click_members(e)) == e,
{
    reveal_strlit("name");
    reveal_strlit("instance");
    reveal_strlit("button");
    reveal_strlit("x");
    reveal_strlit("y");
    reveal_with_fuel(lookup, 6);
    assert("x"@[0] != "y"@[0]);
    assert("name"@.len() == 4 && "instance"@.len() == 8 && "button"@.len() == 6);
    assert("x"@.len() == 1 && "y"@.len() == 1);
    let m = legacy_click_members(e);
    assert(m.drop_first()[0] == m[1]);
    assert(m.drop_first().drop_first()[0] == m[2]);
    assert(m.drop_first().drop_first().drop_first()[0] == m[3]);
    assert(m.drop_first().drop_first().drop_first().drop_first()[0] == m[4]);
    lemma_button_codes(e.button.code());
}

} // verus!
