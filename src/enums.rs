//! The two closed vocabularies that travel as lowercase strings: the markup
//! of a block's text and its alignment.
use crate::json::{message_of, JsonValue, JsonView};
use crate::ParseError;
use vstd::prelude::*;
use vstd::string::*;

pub use crate::mouse_button::MouseButton;

verus! {

/// How a block's text is to be read.
#[derive(Debug, PartialEq, Eq, Structural, Clone, Copy)]
pub enum Markup {
    /// Plain text, written `none` on the wire.
    Plain,
    Pango,
}

/// Where a block's text sits when the block is wider than the text.
#[derive(Debug, PartialEq, Eq, Structural, Clone, Copy)]
pub enum Alignment {
    Left,
    Center,
    Right,
}

/// Whether two texts are the same.
pub fn same_text(a: &str, b: &str) -> (r: bool)
    ensures
        r == (a@ == b@),
{
    String::from_str(a) == String::from_str(b)
}

/// The message for a string outside a closed vocabulary: the string, then
/// the accepted ones.
pub open spec fn unknown_message(value: Seq<char>, expected: Seq<char>) -> Seq<char> {
    "unknown variant `"@ + value + "`, expected one of "@ + expected
}

/// An error for a string outside a closed vocabulary, with the accepted ones.
fn unknown_symbol(value: &str, expected: &str) -> (r: ParseError)
    ensures
        r is InvalidData,
        message_of(r) == unknown_message(value@, expected@),
{
    let mut message = String::from_str("unknown variant `");
    message.append(value);
    message.append("`, expected one of ");
    message.append(expected);
    ParseError::InvalidData(message)
}

impl Markup {
    /// The wire string of a markup.
    pub open spec fn symbol_of(self) -> Seq<char> {
        match self {
            Markup::Plain => "none"@,
            Markup::Pango => "pango"@,
        }
    }

    /// The markup that a wire string names, if any.
    pub open spec fn of_symbol(s: Seq<char>) -> Option<Markup> {
        if s == "none"@ {
            Some(Markup::Plain)
        } else if s == "pango"@ {
            Some(Markup::Pango)
        } else {
            None
        }
    }

    /// The markup that a wire string names, if any.
    pub fn from_symbol(symbol: &str) -> (r: Option<Markup>)
        ensures
            r == Markup::of_symbol(symbol@),
    {
        if same_text(symbol, "none") {
            Some(Markup::Plain)
        } else if same_text(symbol, "pango") {
            Some(Markup::Pango)
        } else {
            None
        }
    }

    /// The wire string of this markup.
    pub fn symbol(&self) -> (r: &'static str)
        ensures
            r@ == self.symbol_of(),
    {
        match self {
            Markup::Plain => "none",
            Markup::Pango => "pango",
        }
    }

    /// What decoding makes of a JSON value: a string of the vocabulary.
    pub open spec fn decoded(v: JsonView) -> Option<Markup> {
        match v {
            JsonView::Text(s) => Markup::of_symbol(s),
            _ => None,
        }
    }

    /// The message when decoding fails: it names the offending string and
    /// the accepted ones.
    pub open spec fn failure(v: JsonView) -> Seq<char> {
        match v {
            JsonView::Text(s) => unknown_message(s, "`none`, `pango`"@),
            _ => "invalid markup: expected a string, one of `none`, `pango`"@,
        }
    }

    /// Decodes a markup from its JSON value.
    pub fn decode(v: &JsonValue) -> (r: Result<Markup, ParseError>)
        ensures
            r is Ok <==> Markup::decoded(v@) is Some,
            r is Ok ==> r->Ok_0 == Markup::decoded(v@)->0,
            r is Err ==> r->Err_0 is InvalidData && message_of(r->Err_0) == Markup::failure(v@),
    {
        match v {
            JsonValue::Text(s) => match Markup::from_symbol(s.as_str()) {
                Some(markup) => Ok(markup),
                None => Err(unknown_symbol(s.as_str(), "`none`, `pango`")),
            },
            _ => Err(ParseError::InvalidData(String::from_str("invalid markup: expected a string, one of `none`, `pango`"))),
        }
    }

    /// The JSON value of this markup: its wire string.
    pub fn encode(&self) -> (r: JsonValue)
        ensures
            r@ == JsonView::Text(self.symbol_of()),
    {
        JsonValue::Text(String::from_str(self.symbol()))
    }
}

impl Default for Markup {
    fn default() -> (r: Markup)
        ensures
            r == Markup::Plain,
    {
        Markup::Plain
    }
}

impl Alignment {
    /// The wire string of an alignment.
    pub open spec fn symbol_of(self) -> Seq<char> {
        match self {
            Alignment::Left => "left"@,
            Alignment::Center => "center"@,
            Alignment::Right => "right"@,
        }
    }

    /// The alignment that a wire string names, if any.
    pub open spec fn of_symbol(s: Seq<char>) -> Option<Alignment> {
        if s == "center"@ {
            Some(Alignment::Center)
        } else if s == "left"@ {
            Some(Alignment::Left)
        } else if s == "right"@ {
            Some(Alignment::Right)
        } else {
            None
        }
    }

    /// The alignment that a wire string names, if any.
    pub fn from_symbol(symbol: &str) -> (r: Option<Alignment>)
        ensures
            r == Alignment::of_symbol(symbol@),
    {
        if same_text(symbol, "center") {
            Some(Alignment::Center)
        } else if same_text(symbol, "left") {
            Some(Alignment::Left)
        } else if same_text(symbol, "right") {
            Some(Alignment::Right)
        } else {
            None
        }
    }

    /// The wire string of this alignment.
    pub fn symbol(&self) -> (r: &'static str)
        ensures
            r@ == self.symbol_of(),
    {
        match self {
            Alignment::Center => "center",
            Alignment::Left => "left",
            Alignment::Right => "right",
        }
    }

    /// What decoding makes of a JSON value: a string of the vocabulary.
    pub open spec fn decoded(v: JsonView) -> Option<Alignment> {
        match v {
            JsonView::Text(s) => Alignment::of_symbol(s),
            _ => None,
        }
    }

    /// The message when decoding fails: it names the offending string and
    /// the accepted ones.
    pub open spec fn failure(v: JsonView) -> Seq<char> {
        match v {
            JsonView::Text(s) => unknown_message(s, "`left`, `center`, `right`"@),
            _ => "invalid alignment: expected a string, one of `left`, `center`, `right`"@,
        }
    }

    /// Decodes an alignment from its JSON value.
    pub fn decode(v: &JsonValue) -> (r: Result<Alignment, ParseError>)
        ensures
            r is Ok <==> Alignment::decoded(v@) is Some,
            r is Ok ==> r->Ok_0 == Alignment::decoded(v@)->0,
            r is Err ==> r->Err_0 is InvalidData && message_of(r->Err_0) == Alignment::failure(v@),
    {
        match v {
            JsonValue::Text(s) => match Alignment::from_symbol(s.as_str()) {
                Some(alignment) => Ok(alignment),
                None => Err(unknown_symbol(s.as_str(), "`left`, `center`, `right`")),
            },
            _ => Err(ParseError::InvalidData(String::from_str("invalid alignment: expected a string, one of `left`, `center`, `right`"))),
        }
    }

    /// The JSON value of this alignment: its wire string.
    pub fn encode(&self) -> (r: JsonValue)
        ensures
            r@ == JsonView::Text(self.symbol_of()),
    {
        JsonValue::Text(String::from_str(self.symbol()))
    }
}

impl Default for Alignment {
    fn default() -> (r: Alignment)
        ensures
            r == Alignment::Left,
    {
        Alignment::Left
    }
}

/// Decoding the encoding of a markup gives it back.
pub proof fn lemma_markup_round_trip(m: Markup)
    ensures
        Markup::decoded(JsonView::Text(m.symbol_of())) == Some(m),
{
    reveal_strlit("none");
    reveal_strlit("pango");
    assert("none"@.len() != "pango"@.len());
}

/// Decoding the encoding of an alignment gives it back.
pub proof fn lemma_alignment_round_trip(a: Alignment)
    ensures
        Alignment::decoded(JsonView::Text(a.symbol_of())) == Some(a),
{
    reveal_strlit("left");
    reveal_strlit("center");
    reveal_strlit("right");
    assert("left"@.len() != "center"@.len());
    assert("left"@.len() != "right"@.len());
    assert("center"@.len() != "right"@.len());
}

} // verus!
