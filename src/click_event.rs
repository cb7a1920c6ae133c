//! The click event of the current protocol, where coordinates may be
//! missing, and a builder for it.
use crate::json::{
    member_failure, member_message, message_of, missing_error, missing_message,
    as_text,
    decode_optional_text, decode_optional_u32, decode_required_text, find_member, json_document,
    lookup, members_view, object_text, optional_text, optional_u32, parse_object, required_text,
    str_view, text_view, write_object, DocumentView, JsonValue, JsonView, Members,
};
use crate::mouse_button::lemma_button_codes;
use crate::block::{optional_text_json, optional_text_value, optional_u32_json, optional_u32_value};
use crate::{MouseButton, ParseError};
use vstd::prelude::*;
use vstd::string::*;

verus! {

/// A click on a block, named by the block's name and instance.
#[derive(Debug)]
pub struct ClickEvent {
    name: String,
    instance: Option<String>,
    button: MouseButton,
    x: Option<u32>,
    y: Option<u32>,
}

/// The mathematical counterpart of [`ClickEvent`] and of
/// [`ClickEventBuilder`].
pub struct ClickEventView {
    pub name: Seq<char>,
    pub instance: Option<Seq<char>>,
    pub button: MouseButton,
    pub x: Option<u32>,
    pub y: Option<u32>,
}

impl View for ClickEvent {
    type V = ClickEventView;

    closed spec fn view(&self) -> ClickEventView {
        ClickEventView {
            name: self.name@,
            instance: text_view(self.instance),
            button: self.button,
            x: self.x,
            y: self.y,
        }
    }
}

fn same_optional_text(a: &Option<String>, b: &Option<String>) -> (r: bool)
    ensures
        r == (text_view(*a) == text_view(*b)),
{
    match (a, b) {
        (Some(s), Some(t)) => *s == *t,
        (None, None) => true,
        _ => false,
    }
}

impl PartialEq for ClickEvent {
    fn eq(&self, other: &ClickEvent) -> (r: bool)
        ensures
            r == (self@ == other@),
    {
        self.name == other.name && same_optional_text(&self.instance, &other.instance)
            && self.button == other.button && self.x == other.x && self.y == other.y
    }
}

impl vstd::std_specs::cmp::PartialEqSpecImpl for ClickEvent {
    open spec fn obeys_eq_spec() -> bool {
        true
    }

    open spec fn eq_spec(&self, other: &ClickEvent) -> bool {
        self@ == other@
    }
}

/// A required button member.
pub open spec fn required_button(v: Option<JsonView>) -> Option<MouseButton> {
    match v {
        Some(x) => MouseButton::decoded(x),
        None => None,
    }
}

/// Decodes the required `button` member.
pub fn decode_button_member(m: &Members) -> (r: Result<MouseButton, ParseError>)
    ensures
        r is Ok <==> required_button(lookup(members_view(m@), "button"@)) is Some,
        r is Ok ==> r->Ok_0 == required_button(lookup(members_view(m@), "button"@))->0,
        r is Err ==> r->Err_0 is InvalidData && message_of(r->Err_0) == button_failure(
            lookup(members_view(m@), "button"@),
        ),
{
    match find_member(m, "button") {
        Some(i) => MouseButton::decode(&m[i].1),
        None => Err(missing_error("button")),
    }
}

/// The message when the `button` member fails: missing, or no integer.
pub open spec fn button_failure(v: Option<JsonView>) -> Seq<char> {
    if v is None {
        missing_message("button"@)
    } else {
        "invalid button: expected an integer"@
    }
}

/// The message of the error for an object's members that make no click
/// event: that of the first member, in the order of the fields, that fails.
pub open spec fn click_error(m: Seq<(Seq<char>, JsonView)>) -> Seq<char> {
    if required_text(lookup(m, "name"@)) is None {
        member_failure(lookup(m, "name"@), "name"@, "a string"@)
    } else if optional_text(lookup(m, "instance"@)) is None {
        member_message("instance"@, "a string or null"@)
    } else if required_button(lookup(m, "button"@)) is None {
        button_failure(lookup(m, "button"@))
    } else if optional_u32(lookup(m, "x"@)) is None {
        member_message("x"@, "an integer in the range of u32 or null"@)
    } else {
        member_message("y"@, "an integer in the range of u32 or null"@)
    }
}

/// Whether an object's members make a click event: `name` and `button` are
/// there, and each member that is there has the right kind.
pub open spec fn click_decodes(m: Seq<(Seq<char>, JsonView)>) -> bool {
    &&& required_text(lookup(m, "name"@)) is Some
    &&& optional_text(lookup(m, "instance"@)) is Some
    &&& required_button(lookup(m, "button"@)) is Some
    &&& optional_u32(lookup(m, "x"@)) is Some
    &&& optional_u32(lookup(m, "y"@)) is Some
}

/// The click event that an object's members make, where `click_decodes`
/// holds.
pub open spec fn decoded_click(m: Seq<(Seq<char>, JsonView)>) -> ClickEventView {
    ClickEventView {
        name: required_text(lookup(m, "name"@))->0,
        instance: optional_text(lookup(m, "instance"@))->0,
        button: required_button(lookup(m, "button"@))->0,
        x: optional_u32(lookup(m, "x"@))->0,
        y: optional_u32(lookup(m, "y"@))->0,
    }
}

/// The members that a click event is written as, in this order.
pub open spec fn click_members(e: ClickEventView) -> Seq<(Seq<char>, JsonView)> {
    seq![
        ("name"@, JsonView::Text(e.name)),
        ("instance"@, optional_text_json(e.instance)),
        ("button"@, JsonView::Unsigned(e.button.code())),
        ("x"@, optional_u32_json(e.x)),
        ("y"@, optional_u32_json(e.y)),
    ]
}

impl ClickEvent {
    /// Makes a click event of an object's members.
    pub fn from_members(m: &Members) -> (r: Result<ClickEvent, ParseError>)
        ensures
            r is Ok <==> click_decodes(members_view(m@)),
            r is Ok ==> r->Ok_0@ == decoded_click(members_view(m@)),
            r is Err ==> r->Err_0 is InvalidData && message_of(r->Err_0) == click_error(
                members_view(m@),
            ),
    {
        let name = decode_required_text(m, "name")?;
        let instance = decode_optional_text(m, "instance")?;
        let button = decode_button_member(m)?;
        let x = decode_optional_u32(m, "x")?;
        let y = decode_optional_u32(m, "y")?;
        Ok(ClickEvent { name, instance, button, x, y })
    }

    /// Decodes a click event from a JSON text.
    pub fn from_str(text: &str) -> (r: Result<ClickEvent, ParseError>)
        ensures
            match json_document(text@) {
                Some(DocumentView::Object(m)) => (r is Ok <==> click_decodes(m)) && (r is Ok
                    ==> r->Ok_0@ == decoded_click(m)) && (r is Err ==> r->Err_0 is InvalidData
                    && message_of(r->Err_0) == click_error(m)),
                Some(DocumentView::Value(_)) => r is Err && r->Err_0 is InvalidData,
                None => r is Err,
            },
    {
        let m = parse_object(text)?;
        ClickEvent::from_members(&m)
    }

    /// The members that this event is written as.
    pub fn to_members(&self) -> (r: Members)
        ensures
            members_view(r@) == click_members(self@),
    {
        let mut m: Members = Vec::new();
        m.push((String::from_str("name"), JsonValue::Text(self.name.clone())));
        m.push((String::from_str("instance"), optional_text_value(&self.instance)));
        m.push((String::from_str("button"), self.button.encode()));
        m.push((String::from_str("x"), optional_u32_value(self.x)));
        m.push((String::from_str("y"), optional_u32_value(self.y)));
        assert(members_view(m@) =~= click_members(self@));
        m
    }

    /// The compact JSON text of this event, members in a fixed order and
    /// absent ones as null.
    pub fn to_string(&self) -> (r: String)
        ensures
            r@ == object_text(click_members(self@)),
    {
        let m = self.to_members();
        write_object(&m)
    }

    pub fn name(&self) -> (r: &str)
        ensures
            r@ == self@.name,
    {
        self.name.as_str()
    }

    pub fn instance(&self) -> (r: Option<&str>)
        ensures
            str_view(r) == self@.instance,
    {
        as_text(&self.instance)
    }

    pub fn button(&self) -> (r: MouseButton)
        ensures
            r == self@.button,
    {
        self.button
    }

    /// Both coordinates, where both are there.
    pub fn coordinates(&self) -> (r: Option<(u32, u32)>)
        ensures
            r == (match (self@.x, self@.y) {
                (Some(x), Some(y)) => Some((x, y)),
                _ => None,
            }),
    {
        match (self.x, self.y) {
            (Some(x), Some(y)) => Some((x, y)),
            _ => None,
        }
    }

    pub fn x(&self) -> (r: Option<u32>)
        ensures
            r == self@.x,
    {
        self.x
    }

    pub fn y(&self) -> (r: Option<u32>)
        ensures
            r == self@.y,
    {
        self.y
    }
}

/// Collects the parts of a click event.
#[derive(Debug)]
pub struct ClickEventBuilder {
    name: String,
    button: MouseButton,
    instance: Option<String>,
    x: Option<u32>,
    y: Option<u32>,
}

impl View for ClickEventBuilder {
    type V = ClickEventView;

    closed spec fn view(&self) -> ClickEventView {
        ClickEventView {
            name: self.name@,
            instance: text_view(self.instance),
            button: self.button,
            x: self.x,
            y: self.y,
        }
    }
}

impl ClickEventBuilder {
    /// Starts an event with a name and a button, and nothing else.
    pub fn new(name: &str, button: MouseButton) -> (r: ClickEventBuilder)
        ensures
            r@ == (ClickEventView { name: name@, instance: None, button, x: None, y: None }),
    {
        ClickEventBuilder {
            name: String::from_str(name),
            button: button,
            instance: None,
            x: None,
            y: None,
        }
    }

    /// Sets the instance.
    pub fn instance(self, value: &str) -> (r: Self)
        ensures
            r@ == (ClickEventView { instance: Some(value@), ..self@ }),
    {
        let mut b = self;
        b.instance = Some(String::from_str(value));
        b
    }

    /// Sets the instance, or clears it with `None`.
    pub fn instance_opt(self, value: Option<&str>) -> (r: Self)
        ensures
            r@ == (ClickEventView { instance: str_view(value), ..self@ }),
    {
        let mut b = self;
        b.instance = match value {
            Some(v) => Some(String::from_str(v)),
            None => None,
        };
        b
    }

    /// Sets both coordinates.
    pub fn coordinates(self, x: u32, y: u32) -> (r: Self)
        ensures
            r@ == (ClickEventView { x: Some(x), y: Some(y), ..self@ }),
    {
        let mut b = self;
        b.x = Some(x);
        b.y = Some(y);
        b
    }

    /// The event with the parts collected so far.
    pub fn build(self) -> (r: ClickEvent)
        ensures
            r@ == self@,
    {
        ClickEvent {
            name: self.name,
            instance: self.instance,
            button: self.button,
            x: self.x,
            y: self.y,
        }
    }
}

/// Decoding the members that a click event is written as gives the event
/// back.
pub proof fn lemma_click_round_trip(e: ClickEventView)
    ensures
        click_decodes(click_members(e)),
        decoded_click(click_members(e)) == e,
{
    reveal_strlit("name");
    reveal_strlit("instance");
    reveal_strlit("button");
    reveal_strlit("x");
    reveal_strlit("y");
    reveal_with_fuel(lookup, 6);
    assert("x"@[0] != "y"@[0]);
    assert("name"@.len() == 4 && "instance"@.len() == 8 && "button"@.len() == 6);
    assert("x"@.len() == 1 && "y"@.len() == 1);
    let m = click_members(e);
    assert(m.drop_first()[0] == m[1]);
    assert(m.drop_first().drop_first()[0] == m[2]);
    assert(m.drop_first().drop_first().drop_first()[0] == m[3]);
    assert(m.drop_first().drop_first().drop_first().drop_first()[0] == m[4]);
    assert(MouseButton::of_code(e.button.code()) == e.button) by {
        lemma_button_codes(e.button.code());
    }
}

} // verus!
