//! A block: one segment of the status line, and its width hint.
use crate::json::{
    member_error, member_failure, member_message, message_of,
    decode_flag, decode_optional_text, decode_optional_u32, decode_required_text, find_member,
    flag_or_false, json_document, lookup, members_view, optional_text, optional_u32, parse_object,
    parse_value, required_text, as_text, str_view, text_view, top_value, value_text, write_value, object_text, write_object, writable, DocumentView, JsonValue, JsonView,
    Members,
};
use crate::enums::{lemma_alignment_round_trip, lemma_markup_round_trip};
use crate::{Alignment, Markup, ParseError};
use vstd::prelude::*;
use vstd::string::*;

verus! {

/// A minimum width for a block: a number of pixels, or a text whose width
/// the bar measures.
#[derive(Debug, Clone)]
pub enum MinWidth {
    Pixels(u32),
    Example(String),
}

/// The mathematical counterpart of [`MinWidth`].
pub enum WidthView {
    Pixels(u32),
    Example(Seq<char>),
}

impl View for MinWidth {
    type V = WidthView;

    open spec fn view(&self) -> WidthView {
        match self {
            MinWidth::Pixels(n) => WidthView::Pixels(*n),
            MinWidth::Example(s) => WidthView::Example(s@),
        }
    }
}

impl PartialEq for MinWidth {
    fn eq(&self, other: &MinWidth) -> (r: bool)
        ensures
            r == (self@ == other@),
    {
        match (self, other) {
            (MinWidth::Pixels(a), MinWidth::Pixels(b)) => *a == *b,
            (MinWidth::Example(a), MinWidth::Example(b)) => *a == *b,
            _ => false,
        }
    }
}

impl vstd::std_specs::cmp::PartialEqSpecImpl for MinWidth {
    open spec fn obeys_eq_spec() -> bool {
        true
    }

    open spec fn eq_spec(&self, other: &MinWidth) -> bool {
        self@ == other@
    }
}

impl From<u32> for MinWidth {
    fn from(pixels: u32) -> (r: MinWidth)
        ensures
            r == MinWidth::Pixels(pixels),
    {
        MinWidth::Pixels(pixels)
    }
}

impl vstd::std_specs::convert::FromSpecImpl<u32> for MinWidth {
    open spec fn obeys_from_spec() -> bool {
        true
    }

    open spec fn from_spec(pixels: u32) -> MinWidth {
        MinWidth::Pixels(pixels)
    }
}

impl From<String> for MinWidth {
    fn from(text: String) -> (r: MinWidth)
        ensures
            r == MinWidth::Example(text),
    {
        MinWidth::Example(text)
    }
}

impl vstd::std_specs::convert::FromSpecImpl<String> for MinWidth {
    open spec fn obeys_from_spec() -> bool {
        true
    }

    open spec fn from_spec(text: String) -> MinWidth {
        MinWidth::Example(text)
    }
}

/// The views of an optional width.
pub open spec fn width_view(o: Option<MinWidth>) -> Option<WidthView> {
    match o {
        Some(w) => Some(w@),
        None => None,
    }
}

impl MinWidth {
    /// What decoding makes of a JSON value: a non-negative integer is a
    /// number of pixels, cut down to `u32::MAX`; a string, whatever it holds,
    /// is an example text; anything else is refused.
    pub open spec fn decoded(v: JsonView) -> Option<WidthView> {
        match v {
            JsonView::Unsigned(n) => Some(
                WidthView::Pixels(
                    if n > u32::MAX {
                        u32::MAX
                    } else {
                        n as u32
                    },
                ),
            ),
            JsonView::Text(s) => Some(WidthView::Example(s)),
            _ => None,
        }
    }

    /// The JSON value of a width: pixels as an integer, an example as a string.
    pub open spec fn encoded(w: WidthView) -> JsonView {
        match w {
            WidthView::Pixels(n) => JsonView::Unsigned(n as u64),
            WidthView::Example(s) => JsonView::Text(s),
        }
    }

    /// Decodes a width from its JSON value.
    pub fn decode(v: &JsonValue) -> (r: Result<MinWidth, ParseError>)
        ensures
            r is Ok <==> MinWidth::decoded(v@) is Some,
            r is Ok ==> r->Ok_0@ == MinWidth::decoded(v@)->0,
            r is Err ==> r->Err_0 is InvalidData && message_of(r->Err_0)
                == "invalid width: expected a positive integer or a string"@,
    {
        match v {
            JsonValue::Unsigned(n) => if *n > u32::MAX as u64 {
                Ok(MinWidth::Pixels(u32::MAX))
            } else {
                Ok(MinWidth::Pixels(*n as u32))
            },
            JsonValue::Text(s) => Ok(MinWidth::Example(s.clone())),
            _ => Err(
                ParseError::InvalidData(
                    String::from_str("invalid width: expected a positive integer or a string"),
                ),
            ),
        }
    }

    /// Decodes a width from a JSON text.
    pub fn from_str(text: &str) -> (r: Result<MinWidth, ParseError>)
        ensures
            match json_document(text@) {
                Some(d) => (r is Ok <==> MinWidth::decoded(top_value(d)) is Some) && (r is Ok
                    ==> r->Ok_0@ == MinWidth::decoded(top_value(d))->0) && (r is Err
                    ==> r->Err_0 is InvalidData),
                None => r is Err,
            },
    {
        let v = parse_value(text)?;
        MinWidth::decode(&v)
    }

    /// The JSON value of this width.
    pub fn encode(&self) -> (r: JsonValue)
        ensures
            r@ == MinWidth::encoded(self@),
    {
        match self {
            MinWidth::Pixels(n) => JsonValue::Unsigned(*n as u64),
            MinWidth::Example(s) => JsonValue::Text(s.clone()),
        }
    }

    /// The JSON text of this width.
    pub fn to_string(&self) -> (r: String)
        ensures
            r@ == value_text(MinWidth::encoded(self@)),
    {
        let mut out = String::new();
        let v = self.encode();
        write_value(&mut out, &v);
        out
    }
}

/// Encoding a width and decoding the result gives the width back.
pub proof fn lemma_width_round_trip(w: WidthView)
    ensures
        MinWidth::decoded(MinWidth::encoded(w)) == Some(w),
{
}

/// A markup member, `Plain` when absent.
pub open spec fn markup_or_default(v: Option<JsonView>) -> Option<Markup> {
    match v {
        None => Some(Markup::Plain),
        Some(x) => Markup::decoded(x),
    }
}

/// An alignment member, `Left` when absent.
pub open spec fn alignment_or_default(v: Option<JsonView>) -> Option<Alignment> {
    match v {
        None => Some(Alignment::Left),
        Some(x) => Alignment::decoded(x),
    }
}

/// An optional width member: absent or null gives none.
pub open spec fn optional_width(v: Option<JsonView>) -> Option<Option<WidthView>> {
    match v {
        None => Some(None),
        Some(JsonView::Null) => Some(None),
        Some(x) => match MinWidth::decoded(x) {
            Some(w) => Some(Some(w)),
            None => None,
        },
    }
}

fn decode_markup_member(m: &Members) -> (r: Result<Markup, ParseError>)
    ensures
        r is Ok <==> markup_or_default(lookup(members_view(m@), "markup"@)) is Some,
        r is Ok ==> r->Ok_0 == markup_or_default(lookup(members_view(m@), "markup"@))->0,
        r is Err ==> r->Err_0 is InvalidData && message_of(r->Err_0) == Markup::failure(
            lookup(members_view(m@), "markup"@)->0,
        ),
{
    match find_member(m, "markup") {
        Some(i) => Markup::decode(&m[i].1),
        None => Ok(Markup::Plain),
    }
}

fn decode_alignment_member(m: &Members) -> (r: Result<Alignment, ParseError>)
    ensures
        r is Ok <==> alignment_or_default(lookup(members_view(m@), "align"@)) is Some,
        r is Ok ==> r->Ok_0 == alignment_or_default(lookup(members_view(m@), "align"@))->0,
        r is Err ==> r->Err_0 is InvalidData && message_of(r->Err_0) == Alignment::failure(
            lookup(members_view(m@), "align"@)->0,
        ),
{
    match find_member(m, "align") {
        Some(i) => Alignment::decode(&m[i].1),
        None => Ok(Alignment::Left),
    }
}

fn decode_width_member(m: &Members) -> (r: Result<Option<MinWidth>, ParseError>)
    ensures
        r is Ok <==> optional_width(lookup(members_view(m@), "min_width"@)) is Some,
        r is Ok ==> width_view(r->Ok_0) == optional_width(
            lookup(members_view(m@), "min_width"@),
        )->0,
        r is Err ==> r->Err_0 is InvalidData && message_of(r->Err_0) == member_message(
            "min_width"@,
            WIDTH_EXPECTED@,
        ),
{
    match find_member(m, "min_width") {
        Some(i) => match &m[i].1 {
            JsonValue::Null => Ok(None),
            v => match MinWidth::decode(v) {
                Ok(w) => Ok(Some(w)),
                Err(_) => Err(member_error("min_width", WIDTH_EXPECTED)),
            },
        },
        None => Ok(None),
    }
}

/// What a `min_width` member should hold.
pub const WIDTH_EXPECTED: &'static str = "a positive integer or a string";

/// One segment of a status line. Only `full_text` is required; everything
/// else is optional or has a default.
#[derive(Debug, Clone)]
pub struct Block {
    name: Option<String>,
    instance: Option<String>,
    full_text: String,
    urgent: bool,
    separator: bool,
    markup: Markup,
    alignment: Alignment,
    short_text: Option<String>,
    color: Option<String>,
    background: Option<String>,
    border: Option<String>,
    min_width: Option<MinWidth>,
    separator_block_width: Option<u32>,
}

/// The mathematical counterpart of [`Block`].
pub struct BlockView {
    pub name: Option<Seq<char>>,
    pub instance: Option<Seq<char>>,
    pub full_text: Seq<char>,
    pub urgent: bool,
    pub separator: bool,
    pub markup: Markup,
    pub alignment: Alignment,
    pub short_text: Option<Seq<char>>,
    pub color: Option<Seq<char>>,
    pub background: Option<Seq<char>>,
    pub border: Option<Seq<char>>,
    pub min_width: Option<WidthView>,
    pub separator_block_width: Option<u32>,
}

impl View for Block {
    type V = BlockView;

    closed spec fn view(&self) -> BlockView {
        BlockView {
            name: text_view(self.name),
            instance: text_view(self.instance),
            full_text: self.full_text@,
            urgent: self.urgent,
            separator: self.separator,
            markup: self.markup,
            alignment: self.alignment,
            short_text: text_view(self.short_text),
            color: text_view(self.color),
            background: text_view(self.background),
            border: text_view(self.border),
            min_width: width_view(self.min_width),
            separator_block_width: self.separator_block_width,
        }
    }
}

/// Whether an object's members make a block: every member that is there has
/// the right kind, and `full_text` is there.
pub open spec fn block_decodes(m: Seq<(Seq<char>, JsonView)>) -> bool {
    &&& required_text(lookup(m, "full_text"@)) is Some
    &&& optional_text(lookup(m, "name"@)) is Some
    &&& optional_text(lookup(m, "instance"@)) is Some
    &&& flag_or_false(lookup(m, "urgent"@)) is Some
    &&& flag_or_false(lookup(m, "separator"@)) is Some
    &&& markup_or_default(lookup(m, "markup"@)) is Some
    &&& alignment_or_default(lookup(m, "align"@)) is Some
    &&& optional_text(lookup(m, "short_text"@)) is Some
    &&& optional_text(lookup(m, "color"@)) is Some
    &&& optional_text(lookup(m, "background"@)) is Some
    &&& optional_text(lookup(m, "border"@)) is Some
    &&& optional_width(lookup(m, "min_width"@)) is Some
    &&& optional_u32(lookup(m, "separator_block_width"@)) is Some
}

/// The message of the error for an object's members that make no block:
/// that of the first member, in the order of the fields, that fails.
pub open spec fn block_error(m: Seq<(Seq<char>, JsonView)>) -> Seq<char> {
    if required_text(lookup(m, "full_text"@)) is None {
        member_failure(lookup(m, "full_text"@), "full_text"@, "a string"@)
    } else if optional_text(lookup(m, "name"@)) is None {
        member_message("name"@, "a string or null"@)
    } else if optional_text(lookup(m, "instance"@)) is None {
        member_message("instance"@, "a string or null"@)
    } else if flag_or_false(lookup(m, "urgent"@)) is None {
        member_message("urgent"@, "a boolean"@)
    } else if flag_or_false(lookup(m, "separator"@)) is None {
        member_message("separator"@, "a boolean"@)
    } else if markup_or_default(lookup(m, "markup"@)) is None {
        Markup::failure(lookup(m, "markup"@)->0)
    } else if alignment_or_default(lookup(m, "align"@)) is None {
        Alignment::failure(lookup(m, "align"@)->0)
    } else if optional_text(lookup(m, "short_text"@)) is None {
        member_message("short_text"@, "a string or null"@)
    } else if optional_text(lookup(m, "color"@)) is None {
        member_message("color"@, "a string or null"@)
    } else if optional_text(lookup(m, "background"@)) is None {
        member_message("background"@, "a string or null"@)
    } else if optional_text(lookup(m, "border"@)) is None {
        member_message("border"@, "a string or null"@)
    } else if optional_width(lookup(m, "min_width"@)) is None {
        member_message("min_width"@, WIDTH_EXPECTED@)
    } else {
        member_message("separator_block_width"@, "an integer in the range of u32 or null"@)
    }
}

/// The block that an object's members make, where `block_decodes` holds.
pub open spec fn decoded_block(m: Seq<(Seq<char>, JsonView)>) -> BlockView {
    BlockView {
        name: optional_text(lookup(m, "name"@))->0,
        instance: optional_text(lookup(m, "instance"@))->0,
        full_text: required_text(lookup(m, "full_text"@))->0,
        urgent: flag_or_false(lookup(m, "urgent"@))->0,
        separator: flag_or_false(lookup(m, "separator"@))->0,
        markup: markup_or_default(lookup(m, "markup"@))->0,
        alignment: alignment_or_default(lookup(m, "align"@))->0,
        short_text: optional_text(lookup(m, "short_text"@))->0,
        color: optional_text(lookup(m, "color"@))->0,
        background: optional_text(lookup(m, "background"@))->0,
        border: optional_text(lookup(m, "border"@))->0,
        min_width: optional_width(lookup(m, "min_width"@))->0,
        separator_block_width: optional_u32(lookup(m, "separator_block_width"@))->0,
    }
}

/// The JSON value of an optional text: null when absent.
pub open spec fn optional_text_json(o: Option<Seq<char>>) -> JsonView {
    match o {
        Some(s) => JsonView::Text(s),
        None => JsonView::Null,
    }
}

/// The JSON value of an optional width: null when absent.
pub open spec fn optional_width_json(o: Option<WidthView>) -> JsonView {
    match o {
        Some(w) => MinWidth::encoded(w),
        None => JsonView::Null,
    }
}

/// The JSON value of an optional `u32`: null when absent.
pub open spec fn optional_u32_json(o: Option<u32>) -> JsonView {
    match o {
        Some(n) => JsonView::Unsigned(n as u64),
        None => JsonView::Null,
    }
}

/// The members that a block is written as, in this order; absent members
/// are written as null.
pub open spec fn block_members(b: BlockView) -> Seq<(Seq<char>, JsonView)> {
    seq![
        ("name"@, optional_text_json(b.name)),
        ("instance"@, optional_text_json(b.instance)),
        ("full_text"@, JsonView::Text(b.full_text)),
        ("urgent"@, JsonView::Bool(b.urgent)),
        ("separator"@, JsonView::Bool(b.separator)),
        ("markup"@, JsonView::Text(b.markup.symbol_of())),
        ("align"@, JsonView::Text(b.alignment.symbol_of())),
        ("short_text"@, optional_text_json(b.short_text)),
        ("color"@, optional_text_json(b.color)),
        ("background"@, optional_text_json(b.background)),
        ("border"@, optional_text_json(b.border)),
        ("min_width"@, optional_width_json(b.min_width)),
        ("separator_block_width"@, optional_u32_json(b.separator_block_width)),
    ]
}

/// The JSON value of an optional text.
pub fn optional_text_value(o: &Option<String>) -> (r: JsonValue)
    ensures
        r@ == optional_text_json(text_view(*o)),
{
    match o {
        Some(s) => JsonValue::Text(s.clone()),
        None => JsonValue::Null,
    }
}

/// The JSON value of an optional `u32`.
pub fn optional_u32_value(o: Option<u32>) -> (r: JsonValue)
    ensures
        r@ == optional_u32_json(o),
{
    match o {
        Some(n) => JsonValue::Unsigned(n as u64),
        None => JsonValue::Null,
    }
}

fn optional_width_value(o: &Option<MinWidth>) -> (r: JsonValue)
    ensures
        r@ == optional_width_json(width_view(*o)),
{
    match o {
        Some(w) => w.encode(),
        None => JsonValue::Null,
    }
}

impl Block {
    /// Makes a block of an object's members.
    pub fn from_members(m: &Members) -> (r: Result<Block, ParseError>)
        ensures
            r is Ok <==> block_decodes(members_view(m@)),
            r is Ok ==> r->Ok_0@ == decoded_block(members_view(m@)),
            r is Err ==> r->Err_0 is InvalidData && message_of(r->Err_0) == block_error(
                members_view(m@),
            ),
    {
        let full_text = decode_required_text(m, "full_text")?;
        let name = decode_optional_text(m, "name")?;
        let instance = decode_optional_text(m, "instance")?;
        let urgent = decode_flag(m, "urgent")?;
        let separator = decode_flag(m, "separator")?;
        let markup = decode_markup_member(m)?;
        let alignment = decode_alignment_member(m)?;
        let short_text = decode_optional_text(m, "short_text")?;
        let color = decode_optional_text(m, "color")?;
        let background = decode_optional_text(m, "background")?;
        let border = decode_optional_text(m, "border")?;
        let min_width = decode_width_member(m)?;
        let separator_block_width = decode_optional_u32(m, "separator_block_width")?;
        Ok(
            Block {
                name,
                instance,
                full_text,
                urgent,
                separator,
                markup,
                alignment,
                short_text,
                color,
                background,
                border,
                min_width,
                separator_block_width,
            },
        )
    }

    /// Decodes a block from a JSON text.
    pub fn from_str(text: &str) -> (r: Result<Block, ParseError>)
        ensures
            match json_document(text@) {
                Some(DocumentView::Object(m)) => (r is Ok <==> block_decodes(m)) && (r is Ok
                    ==> r->Ok_0@ == decoded_block(m)) && (r is Err ==> r->Err_0 is InvalidData
                    && message_of(r->Err_0) == block_error(m)),
                Some(DocumentView::Value(_)) => r is Err && r->Err_0 is InvalidData,
                None => r is Err,
            },
    {
        let m = parse_object(text)?;
        Block::from_members(&m)
    }

    /// The members that this block is written as.
    pub fn to_members(&self) -> (r: Members)
        ensures
            members_view(r@) == block_members(self@),
            forall|i: int| 0 <= i < r.len() ==> writable(#[trigger] r@[i].1@),
    {
        let mut m: Members = Vec::new();
        m.push((String::from_str("name"), optional_text_value(&self.name)));
        m.push((String::from_str("instance"), optional_text_value(&self.instance)));
        m.push((String::from_str("full_text"), JsonValue::Text(self.full_text.clone())));
        m.push((String::from_str("urgent"), JsonValue::Bool(self.urgent)));
        m.push((String::from_str("separator"), JsonValue::Bool(self.separator)));
        m.push((String::from_str("markup"), self.markup.encode()));
        m.push((String::from_str("align"), self.alignment.encode()));
        m.push((String::from_str("short_text"), optional_text_value(&self.short_text)));
        m.push((String::from_str("color"), optional_text_value(&self.color)));
        m.push((String::from_str("background"), optional_text_value(&self.background)));
        m.push((String::from_str("border"), optional_text_value(&self.border)));
        m.push((String::from_str("min_width"), optional_width_value(&self.min_width)));
        m.push(
            (
                String::from_str("separator_block_width"),
                optional_u32_value(self.separator_block_width),
            ),
        );
        assert(members_view(m@) =~= block_members(self@));
        m
    }

    /// The compact JSON text of this block, members in a fixed order and
    /// absent ones as null.
    pub fn to_string(&self) -> (r: String)
        ensures
            r@ == object_text(block_members(self@)),
    {
        let m = self.to_members();
        write_object(&m)
    }

    pub fn full_text(&self) -> (r: &str)
        ensures
            r@ == self@.full_text,
    {
        self.full_text.as_str()
    }

    pub fn name(&self) -> (r: Option<&str>)
        ensures
            str_view(r) == self@.name,
    {
        as_text(&self.name)
    }

    pub fn instance(&self) -> (r: Option<&str>)
        ensures
            str_view(r) == self@.instance,
    {
        as_text(&self.instance)
    }

    pub fn short_text(&self) -> (r: Option<&str>)
        ensures
            str_view(r) == self@.short_text,
    {
        as_text(&self.short_text)
    }

    pub fn min_width(&self) -> (r: Option<&MinWidth>)
        ensures
            match r {
                Some(w) => self@.min_width == Some(w@),
                None => self@.min_width is None,
            },
    {
        match &self.min_width {
            Some(w) => Some(w),
            None => None,
        }
    }

    pub fn alignment(&self) -> (r: Alignment)
        ensures
            r == self@.alignment,
    {
        self.alignment
    }

    pub fn markup(&self) -> (r: Markup)
        ensures
            r == self@.markup,
    {
        self.markup
    }

    pub fn color(&self) -> (r: Option<&str>)
        ensures
            str_view(r) == self@.color,
    {
        as_text(&self.color)
    }

    pub fn border(&self) -> (r: Option<&str>)
        ensures
            str_view(r) == self@.border,
    {
        as_text(&self.border)
    }

    pub fn background(&self) -> (r: Option<&str>)
        ensures
            str_view(r) == self@.background,
    {
        as_text(&self.background)
    }

    pub fn is_urgent(&self) -> (r: bool)
        ensures
            r == self@.urgent,
    {
        self.urgent
    }

    pub fn has_separator(&self) -> (r: bool)
        ensures
            r == self@.separator,
    {
        self.separator
    }

    pub fn separator_block_width(&self) -> (r: Option<u32>)
        ensures
            r == self@.separator_block_width,
    {
        self.separator_block_width
    }
}

/// Decoding the members that a block is written as gives the block back.
pub proof fn lemma_block_round_trip(b: BlockView)
    ensures
        block_decodes(block_members(b)),
        decoded_block(block_members(b)) == b,
{
    reveal_strlit("name");
    reveal_strlit("instance");
    reveal_strlit("full_text");
    reveal_strlit("urgent");
    reveal_strlit("separator");
    reveal_strlit("markup");
    reveal_strlit("align");
    reveal_strlit("short_text");
    reveal_strlit("color");
    reveal_strlit("background");
    reveal_strlit("border");
    reveal_strlit("min_width");
    reveal_strlit("separator_block_width");
    reveal_with_fuel(lookup, 14);
    lemma_markup_round_trip(b.markup);
    lemma_alignment_round_trip(b.alignment);
    if let Some(w) = b.min_width {
        lemma_width_round_trip(w);
    }
    let keys = seq![
        "name"@,
        "instance"@,
        "full_text"@,
        "urgent"@,
        "separator"@,
        "markup"@,
        "align"@,
        "short_text"@,
        "color"@,
        "background"@,
        "border"@,
        "min_width"@,
        "separator_block_width"@,
    ];
    let m = block_members(b);
    assert forall|i: int, j: int| 0 <= i < j < 13 implies keys[i] != keys[j] by {
        assert(keys[i].len() != keys[j].len() || keys[i][0] != keys[j][0]);
    }
    assert forall|i: int| 0 <= i < 13 implies m[i].0 == keys[i] by {}
}

} // verus!
