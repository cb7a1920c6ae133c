//! The flat JSON model that the record codecs work on, the calls into
//! serde_json that produce and quote it, and the text writer for objects.
use crate::ParseError;
use serde_json::Value;
use vstd::prelude::*;
use vstd::string::*;

verus! {

/// One JSON value as the record codecs see it: scalars in full, arrays and
/// objects by kind only (no record nests them).
#[derive(Debug, Clone)]
pub enum JsonValue {
    Null,
    Bool(bool),
    /// A non-negative integer that fits in `u64`.
    Unsigned(u64),
    /// A negative integer that fits in `i64`.
    Negative(i64),
    /// Any other number: one with a fractional part or an exponent, or one
    /// beyond the 64-bit ranges.
    Fraction,
    Text(String),
    Array,
    Object,
}

/// The mathematical counterpart of [`JsonValue`].
pub enum JsonView {
    Null,
    Bool(bool),
    Unsigned(u64),
    Negative(i64),
    Fraction,
    Text(Seq<char>),
    Array,
    Object,
}

impl View for JsonValue {
    type V = JsonView;

    open spec fn view(&self) -> JsonView {
        match self {
            JsonValue::Null => JsonView::Null,
            JsonValue::Bool(b) => JsonView::Bool(*b),
            JsonValue::Unsigned(n) => JsonView::Unsigned(*n),
            JsonValue::Negative(n) => JsonView::Negative(*n),
            JsonValue::Fraction => JsonView::Fraction,
            JsonValue::Text(s) => JsonView::Text(s@),
            JsonValue::Array => JsonView::Array,
            JsonValue::Object => JsonView::Object,
        }
    }
}

/// The members of a JSON object, in the order in which they are held.
pub type Members = Vec<(String, JsonValue)>;

/// The view of a member list: each key and each value by its view.
pub open spec fn members_view(m: Seq<(String, JsonValue)>) -> Seq<(Seq<char>, JsonView)> {
    m.map_values(|p: (String, JsonValue)| (p.0@, p.1@))
}

/// The value of the first member named `key`, if any.
pub open spec fn lookup(m: Seq<(Seq<char>, JsonView)>, key: Seq<char>) -> Option<JsonView>
    decreases m.len(),
{
    if m.len() == 0 {
        None
    } else if m[0].0 == key {
        Some(m[0].1)
    } else {
        lookup(m.drop_first(), key)
    }
}

/// A whole JSON text: an object with its members, or any other value. An
/// object holds each key once, in key order: where a text repeats a key, the
/// last value stands.
#[derive(Debug, Clone)]
pub enum JsonDocument {
    Object(Members),
    Value(JsonValue),
}

/// The mathematical counterpart of [`JsonDocument`].
pub enum DocumentView {
    Object(Seq<(Seq<char>, JsonView)>),
    Value(JsonView),
}

impl View for JsonDocument {
    type V = DocumentView;

    open spec fn view(&self) -> DocumentView {
        match self {
            JsonDocument::Object(m) => DocumentView::Object(members_view(m@)),
            JsonDocument::Value(v) => DocumentView::Value(v@),
        }
    }
}

/// The top-level value of a document, objects by kind only.
pub open spec fn top_value(d: DocumentView) -> JsonView {
    match d {
        DocumentView::Object(_) => JsonView::Object,
        DocumentView::Value(v) => v,
    }
}

/// What serde_json makes of a text: `None` where it is no JSON text.
pub uninterp spec fn json_document(text: Seq<char>) -> Option<DocumentView>;

/// A lowercase hexadecimal digit.
pub open spec fn hex_digit(d: nat) -> char {
    "0123456789abcdef"@[d as int]
}

/// How one character is written inside a JSON string: `"` and `\` behind a
/// backslash; U+0008, U+0009, U+000A, U+000C and U+000D as `\b`, `\t`, `\n`,
/// `\f` and `\r`; any other character below U+0020 as `\u00` and two
/// lowercase hex digits; everything else as it is.
pub open spec fn escaped_char(c: char) -> Seq<char> {
    if c == '"' {
        seq!['\\', '"']
    } else if c == '\\' {
        seq!['\\', '\\']
    } else if c == '\u{8}' {
        seq!['\\', 'b']
    } else if c == '\t' {
        seq!['\\', 't']
    } else if c == '\n' {
        seq!['\\', 'n']
    } else if c == '\u{c}' {
        seq!['\\', 'f']
    } else if c == '\r' {
        seq!['\\', 'r']
    } else if (c as u32) < 0x20 {
        seq!['\\', 'u', '0', '0', hex_digit((c as u32 / 16) as nat), hex_digit((c as u32 % 16) as nat)]
    } else {
        seq![c]
    }
}

/// The characters of a text, each written as `escaped_char` writes it.
pub open spec fn escaped(s: Seq<char>) -> Seq<char>
    decreases s.len(),
{
    if s.len() == 0 {
        Seq::empty()
    } else {
        escaped(s.drop_last()) + escaped_char(s.last())
    }
}

/// The JSON string literal of a text: quotes around its escaped characters.
pub open spec fn json_quoted(s: Seq<char>) -> Seq<char> {
    seq!['"'] + escaped(s) + seq!['"']
}

/// serde_json's error, carried through unopened.
#[verifier::external_type_specification]
#[verifier::external_body]
pub struct ExJsonError(serde_json::Error);

/// serde_json's four error categories: public variants that carry nothing,
/// so they are declared as they are and matched on.
#[verifier::external_type_specification]
pub struct ExJsonCategory(serde_json::error::Category);

/// serde_json's own classification of one of its errors.
pub assume_specification[ serde_json::Error::classify ](e: &serde_json::Error) -> serde_json::error::Category;

/// Relies on serde_json's `Display` of its error: a readable description.
#[verifier::external_body]
fn json_error_message(e: &serde_json::Error) -> String {
    e.to_string()
}

/// Relies on `serde_json::from_str` into a `serde_json::Value`: the result
/// depends on the text alone. Its map keeps one value per key (the last one
/// in the text) and orders the keys.
#[verifier::external_body]
fn parse_document(text: &str) -> (r: Result<JsonDocument, serde_json::Error>)
    ensures
        r is Ok <==> json_document(text@) is Some,
        r is Ok ==> json_document(text@) == Some(r->Ok_0@),
{
    let value: Value = serde_json::from_str(text)?;
    let flat = |v: &Value| match v {
        Value::Null => JsonValue::Null,
        Value::Bool(b) => JsonValue::Bool(*b),
        Value::Number(n) => n.as_u64().map(JsonValue::Unsigned).or(n.as_i64().map(JsonValue::Negative)).unwrap_or(JsonValue::Fraction),
        Value::String(s) => JsonValue::Text(s.clone()),
        Value::Array(_) => JsonValue::Array,
        Value::Object(_) => JsonValue::Object,
    };
    Ok(match value.as_object() {
        Some(m) => JsonDocument::Object(m.iter().map(|(k, v)| (k.clone(), flat(v))).collect()),
        None => JsonDocument::Value(flat(&value)),
    })
}

/// Relies on `serde_json::to_string` of a `str` (its `format_escaped_str` and
/// escape table): a quote, each character escaped as `escaped_char` says, a
/// quote. Writing into memory does not fail.
#[verifier::external_body]
fn quote(s: &str) -> (r: String)
    ensures
        r@ == json_quoted(s@),
{
    serde_json::to_string(s).unwrap_or_default()
}

/// Maps a serde_json error onto the library's error kinds by serde_json's
/// classification.
pub fn error_of_category(category: serde_json::error::Category, message: String) -> (r: ParseError)
    ensures
        r == (match category {
            serde_json::error::Category::Io => ParseError::ReadError(message),
            serde_json::error::Category::Eof => ParseError::ReadError(message),
            serde_json::error::Category::Syntax => ParseError::JsonError(message),
            serde_json::error::Category::Data => ParseError::InvalidData(message),
        }),
{
    match category {
        serde_json::error::Category::Io => ParseError::ReadError(message),
        serde_json::error::Category::Eof => ParseError::ReadError(message),
        serde_json::error::Category::Syntax => ParseError::JsonError(message),
        serde_json::error::Category::Data => ParseError::InvalidData(message),
    }
}

/// The error for a text that serde_json could not read.
pub fn error_of_json(e: &serde_json::Error) -> ParseError {
    let category = e.classify();
    error_of_category(category, json_error_message(e))
}

impl From<serde_json::Error> for ParseError {
    /// Classifies a serde_json error as [`error_of_json`] does.
    fn from(e: serde_json::Error) -> ParseError {
        error_of_json(&e)
    }
}

impl vstd::std_specs::convert::FromSpecImpl<serde_json::Error> for ParseError {
    /// Which kind comes out rests on serde_json's classification of an
    /// opaque error, so no result is promised here.
    open spec fn obeys_from_spec() -> bool {
        false
    }

    closed spec fn from_spec(e: serde_json::Error) -> ParseError {
        arbitrary()
    }
}

/// Reads a JSON text into the members of the object that it holds.
pub fn parse_object(text: &str) -> (r: Result<Members, ParseError>)
    ensures
        match json_document(text@) {
            Some(DocumentView::Object(m)) => r is Ok && members_view(r->Ok_0@) == m,
            Some(DocumentView::Value(_)) => r is Err && r->Err_0 is InvalidData,
            None => r is Err,
        },
{
    match parse_document(text) {
        Err(e) => Err(error_of_json(&e)),
        Ok(JsonDocument::Value(_)) => Err(ParseError::InvalidData(String::from_str("expected a JSON object"))),
        Ok(JsonDocument::Object(m)) => Ok(m),
    }
}

/// Reads a JSON text into its top-level value.
pub fn parse_value(text: &str) -> (r: Result<JsonValue, ParseError>)
    ensures
        match json_document(text@) {
            Some(d) => r is Ok && r->Ok_0@ == top_value(d),
            None => r is Err,
        },
{
    match parse_document(text) {
        Err(e) => Err(error_of_json(&e)),
        Ok(JsonDocument::Value(v)) => Ok(v),
        Ok(JsonDocument::Object(_)) => Ok(JsonValue::Object),
    }
}

/// The views of an optional text.
pub open spec fn str_view(o: Option<&str>) -> Option<Seq<char>> {
    match o {
        Some(s) => Some(s@),
        None => None,
    }
}

/// Finds the first member named `key`.
pub fn find_member(m: &Members, key: &str) -> (r: Option<usize>)
    ensures
        match r {
            None => lookup(members_view(m@), key@) is None,
            Some(i) => i < m.len() && lookup(members_view(m@), key@) == Some(m@[i as int].1@),
        },
{
    let k = String::from_str(key);
    let ghost mv = members_view(m@);
    let mut i: usize = 0;
    assert(mv.subrange(0, m@.len() as int) =~= mv);
    while i < m.len()
        invariant
            i <= m.len(),
            k@ == key@,
            mv == members_view(m@),
            lookup(mv, key@) == lookup(mv.subrange(i as int, m@.len() as int), key@),
        decreases m.len() - i,
    {
        let ghost rest = mv.subrange(i as int, m@.len() as int);
        assert(rest[0] == (m@[i as int].0@, m@[i as int].1@));
        if m[i].0 == k {
            return Some(i);
        }
        assert(rest.drop_first() =~= mv.subrange(i + 1, m@.len() as int));
        i = i + 1;
    }
    assert(mv.subrange(i as int, m@.len() as int).len() == 0);
    None
}

/// A required string member: present and a string.
pub open spec fn required_text(v: Option<JsonView>) -> Option<Seq<char>> {
    match v {
        Some(JsonView::Text(s)) => Some(s),
        _ => None,
    }
}

/// An optional string member: absent or null gives none, a string gives it.
pub open spec fn optional_text(v: Option<JsonView>) -> Option<Option<Seq<char>>> {
    match v {
        None => Some(None),
        Some(JsonView::Null) => Some(None),
        Some(JsonView::Text(s)) => Some(Some(s)),
        _ => None,
    }
}

/// A boolean member that is false when absent.
pub open spec fn flag_or_false(v: Option<JsonView>) -> Option<bool> {
    match v {
        None => Some(false),
        Some(JsonView::Bool(b)) => Some(b),
        _ => None,
    }
}

/// A required member that holds a `u32`.
pub open spec fn required_u32(v: Option<JsonView>) -> Option<u32> {
    match v {
        Some(JsonView::Unsigned(n)) => if n <= u32::MAX {
            Some(n as u32)
        } else {
            None
        },
        _ => None,
    }
}

/// An optional member that holds a `u32`: absent or null gives none.
pub open spec fn optional_u32(v: Option<JsonView>) -> Option<Option<u32>> {
    match v {
        None => Some(None),
        Some(JsonView::Null) => Some(None),
        Some(JsonView::Unsigned(n)) => if n <= u32::MAX {
            Some(Some(n as u32))
        } else {
            None
        },
        _ => None,
    }
}

/// A member that holds an `i32`, and is 0 when absent.
pub open spec fn i32_or_zero(v: Option<JsonView>) -> Option<i32> {
    match v {
        None => Some(0),
        Some(JsonView::Unsigned(n)) => if n <= i32::MAX {
            Some(n as i32)
        } else {
            None
        },
        Some(JsonView::Negative(n)) => if i32::MIN <= n && n <= i32::MAX {
            Some(n as i32)
        } else {
            None
        },
        _ => None,
    }
}

/// A required member that holds a `u8`.
pub open spec fn required_u8(v: Option<JsonView>) -> Option<u8> {
    match v {
        Some(JsonView::Unsigned(n)) => if n <= u8::MAX {
            Some(n as u8)
        } else {
            None
        },
        _ => None,
    }
}

/// The views of an optional string.
pub open spec fn text_view(o: Option<String>) -> Option<Seq<char>> {
    match o {
        Some(s) => Some(s@),
        None => None,
    }
}

/// Borrows the text of an optional string.
pub fn as_text(o: &Option<String>) -> (r: Option<&str>)
    ensures
        str_view(r) == text_view(*o),
{
    match o {
        Some(s) => Some(s.as_str()),
        None => None,
    }
}

/// The text that an error carries.
pub open spec fn message_of(e: ParseError) -> Seq<char> {
    match e {
        ParseError::ReadError(s) => s@,
        ParseError::JsonError(s) => s@,
        ParseError::InvalidData(s) => s@,
    }
}

/// The message for a required member that is not there.
pub open spec fn missing_message(key: Seq<char>) -> Seq<char> {
    "missing member `"@ + key + "`"@
}

/// The message for a member that does not hold what it should.
pub open spec fn member_message(key: Seq<char>, expected: Seq<char>) -> Seq<char> {
    "invalid member `"@ + key + "`: expected "@ + expected
}

/// The message for a member that failed to decode, given what the object
/// holds under its key.
pub open spec fn member_failure(v: Option<JsonView>, key: Seq<char>, expected: Seq<char>) -> Seq<
    char,
> {
    if v is None {
        missing_message(key)
    } else {
        member_message(key, expected)
    }
}

/// A decoding error that names the member and what it should have held.
pub fn member_error(key: &str, expected: &str) -> (r: ParseError)
    ensures
        r is InvalidData,
        message_of(r) == member_message(key@, expected@),
{
    let mut message = String::from_str("invalid member `");
    message.append(key);
    message.append("`: expected ");
    message.append(expected);
    ParseError::InvalidData(message)
}

/// A decoding error for a required member that is not there.
pub fn missing_error(key: &str) -> (r: ParseError)
    ensures
        r is InvalidData,
        message_of(r) == missing_message(key@),
{
    let mut message = String::from_str("missing member `");
    message.append(key);
    message.append("`");
    ParseError::InvalidData(message)
}

/// Decodes a required string member.
pub fn decode_required_text(m: &Members, key: &str) -> (r: Result<String, ParseError>)
    ensures
        r is Ok <==> required_text(lookup(members_view(m@), key@)) is Some,
        r is Ok ==> r->Ok_0@ == required_text(lookup(members_view(m@), key@))->0,
        r is Err ==> r->Err_0 is InvalidData && message_of(r->Err_0) == member_failure(
            lookup(members_view(m@), key@),
            key@,
            "a string"@,
        ),
{
    match find_member(m, key) {
        Some(i) => match &m[i].1 {
            JsonValue::Text(s) => Ok(s.clone()),
            _ => Err(member_error(key, "a string")),
        },
        None => Err(missing_error(key)),
    }
}

/// Decodes an optional string member.
pub fn decode_optional_text(m: &Members, key: &str) -> (r: Result<Option<String>, ParseError>)
    ensures
        r is Ok <==> optional_text(lookup(members_view(m@), key@)) is Some,
        r is Ok ==> text_view(r->Ok_0) == optional_text(lookup(members_view(m@), key@))->0,
        r is Err ==> r->Err_0 is InvalidData && message_of(r->Err_0) == member_failure(
            lookup(members_view(m@), key@),
            key@,
            "a string or null"@,
        ),
{
    match find_member(m, key) {
        Some(i) => match &m[i].1 {
            JsonValue::Null => Ok(None),
            JsonValue::Text(s) => Ok(Some(s.clone())),
            _ => Err(member_error(key, "a string or null")),
        },
        None => Ok(None),
    }
}

/// Decodes a boolean member that is false when absent.
pub fn decode_flag(m: &Members, key: &str) -> (r: Result<bool, ParseError>)
    ensures
        r is Ok <==> flag_or_false(lookup(members_view(m@), key@)) is Some,
        r is Ok ==> r->Ok_0 == flag_or_false(lookup(members_view(m@), key@))->0,
        r is Err ==> r->Err_0 is InvalidData && message_of(r->Err_0) == member_failure(
            lookup(members_view(m@), key@),
            key@,
            "a boolean"@,
        ),
{
    match find_member(m, key) {
        Some(i) => match &m[i].1 {
            JsonValue::Bool(b) => Ok(*b),
            _ => Err(member_error(key, "a boolean")),
        },
        None => Ok(false),
    }
}

/// Decodes a required `u32` member.
pub fn decode_required_u32(m: &Members, key: &str) -> (r: Result<u32, ParseError>)
    ensures
        r is Ok <==> required_u32(lookup(members_view(m@), key@)) is Some,
        r is Ok ==> r->Ok_0 == required_u32(lookup(members_view(m@), key@))->0,
        r is Err ==> r->Err_0 is InvalidData && message_of(r->Err_0) == member_failure(
            lookup(members_view(m@), key@),
            key@,
            "an integer in the range of u32"@,
        ),
{
    match find_member(m, key) {
        Some(i) => match &m[i].1 {
            JsonValue::Unsigned(n) => if *n <= u32::MAX as u64 {
                Ok(*n as u32)
            } else {
                Err(member_error(key, "an integer in the range of u32"))
            },
            _ => Err(member_error(key, "an integer in the range of u32")),
        },
        None => Err(missing_error(key)),
    }
}

/// Decodes an optional `u32` member.
pub fn decode_optional_u32(m: &Members, key: &str) -> (r: Result<Option<u32>, ParseError>)
    ensures
        r is Ok <==> optional_u32(lookup(members_view(m@), key@)) is Some,
        r is Ok ==> r->Ok_0 == optional_u32(lookup(members_view(m@), key@))->0,
        r is Err ==> r->Err_0 is InvalidData && message_of(r->Err_0) == member_failure(
            lookup(members_view(m@), key@),
            key@,
            "an integer in the range of u32 or null"@,
        ),
{
    match find_member(m, key) {
        Some(i) => match &m[i].1 {
            JsonValue::Null => Ok(None),
            JsonValue::Unsigned(n) => if *n <= u32::MAX as u64 {
                Ok(Some(*n as u32))
            } else {
                Err(member_error(key, "an integer in the range of u32 or null"))
            },
            _ => Err(member_error(key, "an integer in the range of u32 or null")),
        },
        None => Ok(None),
    }
}

/// Decodes an `i32` member that is 0 when absent.
pub fn decode_i32_or_zero(m: &Members, key: &str) -> (r: Result<i32, ParseError>)
    ensures
        r is Ok <==> i32_or_zero(lookup(members_view(m@), key@)) is Some,
        r is Ok ==> r->Ok_0 == i32_or_zero(lookup(members_view(m@), key@))->0,
        r is Err ==> r->Err_0 is InvalidData && message_of(r->Err_0) == member_failure(
            lookup(members_view(m@), key@),
            key@,
            "an integer in the range of i32"@,
        ),
{
    match find_member(m, key) {
        Some(i) => match &m[i].1 {
            JsonValue::Unsigned(n) => if *n <= i32::MAX as u64 {
                Ok(*n as i32)
            } else {
                Err(member_error(key, "an integer in the range of i32"))
            },
            JsonValue::Negative(n) => if i32::MIN as i64 <= *n && *n <= i32::MAX as i64 {
                Ok(*n as i32)
            } else {
                Err(member_error(key, "an integer in the range of i32"))
            },
            _ => Err(member_error(key, "an integer in the range of i32")),
        },
        None => Ok(0),
    }
}

/// Decodes a required `u8` member.
pub fn decode_required_u8(m: &Members, key: &str) -> (r: Result<u8, ParseError>)
    ensures
        r is Ok <==> required_u8(lookup(members_view(m@), key@)) is Some,
        r is Ok ==> r->Ok_0 == required_u8(lookup(members_view(m@), key@))->0,
        r is Err ==> r->Err_0 is InvalidData && message_of(r->Err_0) == member_failure(
            lookup(members_view(m@), key@),
            key@,
            "an integer in the range of u8"@,
        ),
{
    match find_member(m, key) {
        Some(i) => match &m[i].1 {
            JsonValue::Unsigned(n) => if *n <= u8::MAX as u64 {
                Ok(*n as u8)
            } else {
                Err(member_error(key, "an integer in the range of u8"))
            },
            _ => Err(member_error(key, "an integer in the range of u8")),
        },
        None => Err(missing_error(key)),
    }
}

/// The decimal digit `d` as text.
pub open spec fn digit_text(d: nat) -> Seq<char> {
    if d == 0 {
        "0"@
    } else if d == 1 {
        "1"@
    } else if d == 2 {
        "2"@
    } else if d == 3 {
        "3"@
    } else if d == 4 {
        "4"@
    } else if d == 5 {
        "5"@
    } else if d == 6 {
        "6"@
    } else if d == 7 {
        "7"@
    } else if d == 8 {
        "8"@
    } else {
        "9"@
    }
}

/// The decimal notation of `n`, without leading zeros.
pub open spec fn decimal(n: nat) -> Seq<char>
    decreases n,
{
    if n < 10 {
        digit_text(n)
    } else {
        decimal(n / 10) + digit_text(n % 10)
    }
}

/// The JSON notation of an integer.
pub open spec fn integer_text(i: int) -> Seq<char> {
    if i < 0 {
        "-"@ + decimal((-i) as nat)
    } else {
        decimal(i as nat)
    }
}

/// The values that the writer can put down: the scalars.
pub open spec fn writable(v: JsonView) -> bool {
    v is Null || v is Bool || v is Unsigned || v is Negative || v is Text
}

/// The JSON text of a scalar value.
pub open spec fn value_text(v: JsonView) -> Seq<char> {
    match v {
        JsonView::Null => "null"@,
        JsonView::Bool(b) => if b {
            "true"@
        } else {
            "false"@
        },
        JsonView::Unsigned(n) => integer_text(n as int),
        JsonView::Negative(n) => integer_text(n as int),
        JsonView::Text(s) => json_quoted(s),
        _ => Seq::empty(),
    }
}

/// One member as `"key":value`.
pub open spec fn member_text(p: (Seq<char>, JsonView)) -> Seq<char> {
    json_quoted(p.0) + ":"@ + value_text(p.1)
}

/// The members, separated by commas, in order.
pub open spec fn members_text(m: Seq<(Seq<char>, JsonView)>) -> Seq<char>
    decreases m.len(),
{
    if m.len() == 0 {
        Seq::empty()
    } else if m.len() == 1 {
        member_text(m[0])
    } else {
        members_text(m.drop_last()) + ","@ + member_text(m.last())
    }
}

/// The compact JSON text of an object with these members.
pub open spec fn object_text(m: Seq<(Seq<char>, JsonView)>) -> Seq<char> {
    "{"@ + members_text(m) + "}"@
}

fn digit_str(d: u64) -> (r: &'static str)
    requires
        d < 10,
    ensures
        r@ == digit_text(d as nat),
{
    if d == 0 {
        "0"
    } else if d == 1 {
        "1"
    } else if d == 2 {
        "2"
    } else if d == 3 {
        "3"
    } else if d == 4 {
        "4"
    } else if d == 5 {
        "5"
    } else if d == 6 {
        "6"
    } else if d == 7 {
        "7"
    } else if d == 8 {
        "8"
    } else {
        "9"
    }
}

/// Appends the decimal notation of `n`.
pub fn write_decimal(out: &mut String, n: u64)
    ensures
        final(out)@ == old(out)@ + decimal(n as nat),
    decreases n,
{
    if n >= 10 {
        write_decimal(out, n / 10);
        out.append(digit_str(n % 10));
        assert(final(out)@ =~= old(out)@ + decimal(n as nat));
    } else {
        out.append(digit_str(n));
    }
}

/// Appends the JSON notation of an integer.
pub fn write_integer(out: &mut String, n: i64)
    ensures
        final(out)@ == old(out)@ + integer_text(n as int),
{
    if n < 0 {
        out.append("-");
        let magnitude: u64 = (-(n as i128)) as u64;
        write_decimal(out, magnitude);
        assert(final(out)@ =~= old(out)@ + integer_text(n as int));
    } else {
        write_decimal(out, n as u64);
    }
}

/// Appends the JSON text of a scalar value.
pub fn write_value(out: &mut String, v: &JsonValue)
    requires
        writable(v@),
    ensures
        final(out)@ == old(out)@ + value_text(v@),
{
    match v {
        JsonValue::Null => out.append("null"),
        JsonValue::Bool(b) => if *b {
            out.append("true")
        } else {
            out.append("false")
        },
        JsonValue::Unsigned(n) => write_decimal(out, *n),
        JsonValue::Negative(n) => write_integer(out, *n),
        JsonValue::Text(s) => {
            let quoted = quote(s.as_str());
            out.append(quoted.as_str());
        },
        _ => {},
    }
}

/// Writes an object with these members as compact JSON text, members in
/// order.
pub fn write_object(m: &Members) -> (r: String)
    requires
        forall|i: int| 0 <= i < m.len() ==> writable(#[trigger] m@[i].1@),
    ensures
        r@ == object_text(members_view(m@)),
{
    let ghost mv = members_view(m@);
    let mut out = String::from_str("{");
    let mut i: usize = 0;
    while i < m.len()
        invariant
            i <= m.len(),
            mv == members_view(m@),
            forall|j: int| 0 <= j < m.len() ==> writable(#[trigger] m@[j].1@),
            out@ == "{"@ + members_text(mv.subrange(0, i as int)),
        decreases m.len() - i,
    {
        let ghost before = out@;
        if i > 0 {
            out.append(",");
        }
        let key = quote(m[i].0.as_str());
        out.append(key.as_str());
        out.append(":");
        write_value(&mut out, &m[i].1);
        proof {
            let next = mv.subrange(0, i + 1);
            assert(next.drop_last() =~= mv.subrange(0, i as int));
            assert(next.last() == mv[i as int]);
            if i > 0 {
                assert(out@ =~= before + ","@ + member_text(mv[i as int]));
                assert(out@ =~= "{"@ + members_text(next));
            } else {
                assert(out@ =~= "{"@ + members_text(next));
            }
        }
        i = i + 1;
    }
    assert(mv.subrange(0, m@.len() as int) =~= mv);
    out.append("}");
    out
}

} // verus!
