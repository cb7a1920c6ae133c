//! The header that opens a stream: protocol version, the signals that pause
//! and resume the producer, and whether click events are wanted.
use crate::json::{
    member_failure, member_message, message_of,
    flag_or_false, i32_or_zero, json_document, lookup, members_view, object_text, parse_object,
    required_u8, write_object, decode_flag, decode_i32_or_zero, decode_required_u8, DocumentView,
    JsonValue, JsonView, Members,
};
use crate::ParseError;
use vstd::prelude::*;
use vstd::string::*;

verus! {

/// Relies on `libc::SIGSTOP`: the platform's stop signal, a positive number
/// on every platform that libc covers. Its value differs between targets
/// (19 on x86 Linux, 17 on macOS, 23 on MIPS), so it gets no name here; the
/// verified constructors take it as an argument instead.
#[verifier::external_body]
fn platform_stop_signal() -> (r: i32)
    ensures
        r > 0,
{
    libc::SIGSTOP
}

/// Relies on `libc::SIGCONT`: the platform's continue signal, a positive
/// number on every platform that libc covers, differing between targets.
#[verifier::external_body]
fn platform_continue_signal() -> (r: i32)
    ensures
        r > 0,
{
    libc::SIGCONT
}

/// The first record of a stream.
#[derive(Debug, Clone, Copy, PartialEq, Eq, Structural)]
pub struct Header {
    version: u8,
    stop_signal: i32,
    continue_signal: i32,
    click_events: bool,
}

/// The mathematical counterpart of [`Header`].
pub struct HeaderView {
    pub version: u8,
    pub stop_signal: i32,
    pub continue_signal: i32,
    pub click_events: bool,
}

impl View for Header {
    type V = HeaderView;

    closed spec fn view(&self) -> HeaderView {
        HeaderView {
            version: self.version,
            stop_signal: self.stop_signal,
            continue_signal: self.continue_signal,
            click_events: self.click_events,
        }
    }
}

/// A signal number as read from the wire, where 0 stands for the default.
pub open spec fn signal_or(wire: i32, default: i32) -> i32 {
    if wire == 0 {
        default
    } else {
        wire
    }
}

/// Whether an object's members make a header: `version` is there and each
/// member that is there has the right kind.
pub open spec fn header_decodes(m: Seq<(Seq<char>, JsonView)>) -> bool {
    &&& required_u8(lookup(m, "version"@)) is Some
    &&& i32_or_zero(lookup(m, "stop_signal"@)) is Some
    &&& i32_or_zero(lookup(m, "cont_signal"@)) is Some
    &&& flag_or_false(lookup(m, "click_events"@)) is Some
}

/// The message of the error for an object's members that make no header:
/// that of the first member, in the order of the fields, that fails.
pub open spec fn header_error(m: Seq<(Seq<char>, JsonView)>) -> Seq<char> {
    if required_u8(lookup(m, "version"@)) is None {
        member_failure(lookup(m, "version"@), "version"@, "an integer in the range of u8"@)
    } else if i32_or_zero(lookup(m, "stop_signal"@)) is None {
        member_message("stop_signal"@, "an integer in the range of i32"@)
    } else if i32_or_zero(lookup(m, "cont_signal"@)) is None {
        member_message("cont_signal"@, "an integer in the range of i32"@)
    } else {
        member_message("click_events"@, "a boolean"@)
    }
}

/// The header that an object's members make with these default signals,
/// where `header_decodes` holds.
pub open spec fn decoded_header(
    m: Seq<(Seq<char>, JsonView)>,
    stop_default: i32,
    continue_default: i32,
) -> HeaderView {
    HeaderView {
        version: required_u8(lookup(m, "version"@))->0,
        stop_signal: signal_or(i32_or_zero(lookup(m, "stop_signal"@))->0, stop_default),
        continue_signal: signal_or(i32_or_zero(lookup(m, "cont_signal"@))->0, continue_default),
        click_events: flag_or_false(lookup(m, "click_events"@))->0,
    }
}

/// The JSON value of a signal number.
pub open spec fn signal_json(s: i32) -> JsonView {
    if s < 0 {
        JsonView::Negative(s as i64)
    } else {
        JsonView::Unsigned(s as u64)
    }
}

/// The members that a header is written as, in this order.
pub open spec fn header_members(h: HeaderView) -> Seq<(Seq<char>, JsonView)> {
    seq![
        ("version"@, JsonView::Unsigned(h.version as u64)),
        ("stop_signal"@, signal_json(h.stop_signal)),
        ("cont_signal"@, signal_json(h.continue_signal)),
        ("click_events"@, JsonView::Bool(h.click_events)),
    ]
}

fn signal_value(s: i32) -> (r: JsonValue)
    ensures
        r@ == signal_json(s),
{
    if s < 0 {
        JsonValue::Negative(s as i64)
    } else {
        JsonValue::Unsigned(s as u64)
    }
}

impl Header {
    /// Makes a header of an object's members; a signal that is absent or 0
    /// takes the default given for it.
    pub fn from_members(m: &Members, stop_default: i32, continue_default: i32) -> (r: Result<
        Header,
        ParseError,
    >)
        ensures
            r is Ok <==> header_decodes(members_view(m@)),
            r is Ok ==> r->Ok_0@ == decoded_header(
                members_view(m@),
                stop_default,
                continue_default,
            ),
            r is Err ==> r->Err_0 is InvalidData && message_of(r->Err_0) == header_error(
                members_view(m@),
            ),
    {
        let version = decode_required_u8(m, "version")?;
        let stop_signal = decode_i32_or_zero(m, "stop_signal")?;
        let continue_signal = decode_i32_or_zero(m, "cont_signal")?;
        let click_events = decode_flag(m, "click_events")?;
        Ok(
            Header {
                version,
                stop_signal: if stop_signal == 0 {
                    stop_default
                } else {
                    stop_signal
                },
                continue_signal: if continue_signal == 0 {
                    continue_default
                } else {
                    continue_signal
                },
                click_events,
            },
        )
    }

    /// Decodes a header from a JSON text; a signal that is absent or 0
    /// becomes the platform's stop or continue signal.
    pub fn decode(text: &str) -> (r: Result<Header, ParseError>)
        ensures
            match json_document(text@) {
                Some(DocumentView::Object(m)) => (r is Ok <==> header_decodes(m)) && (r is Ok
                    ==> {
                    let h = r->Ok_0@;
                    let d = decoded_header(m, h.stop_signal, h.continue_signal);
                    &&& h == d
                    &&& h.stop_signal != 0
                    &&& h.continue_signal != 0
                }) && (r is Err ==> r->Err_0 is InvalidData && message_of(r->Err_0)
                    == header_error(m)),
                Some(DocumentView::Value(_)) => r is Err && r->Err_0 is InvalidData,
                None => r is Err,
            },
    {
        let m = parse_object(text)?;
        let stop_default = platform_stop_signal();
        let continue_default = platform_continue_signal();
        Header::from_members(&m, stop_default, continue_default)
    }

    /// The members that this header is written as.
    pub fn to_members(&self) -> (r: Members)
        ensures
            members_view(r@) == header_members(self@),
    {
        let mut m: Members = Vec::new();
        m.push((String::from_str("version"), JsonValue::Unsigned(self.version as u64)));
        m.push((String::from_str("stop_signal"), signal_value(self.stop_signal)));
        m.push((String::from_str("cont_signal"), signal_value(self.continue_signal)));
        m.push((String::from_str("click_events"), JsonValue::Bool(self.click_events)));
        assert(members_view(m@) =~= header_members(self@));
        m
    }

    /// The compact JSON text of this header, members in a fixed order.
    pub fn to_string(&self) -> (r: String)
        ensures
            r@ == object_text(header_members(self@)),
    {
        let m = self.to_members();
        write_object(&m)
    }

    /// A header of version 1 with these signals and no click events.
    pub fn with_signals(stop_signal: i32, continue_signal: i32) -> (r: Header)
        ensures
            r@ == (HeaderView { version: 1, stop_signal, continue_signal, click_events: false }),
    {
        Header { version: 1, stop_signal, continue_signal, click_events: false }
    }

    pub fn version(&self) -> (r: u8)
        ensures
            r == self@.version,
    {
        self.version
    }

    pub fn stop_signal(&self) -> (r: i32)
        ensures
            r == self@.stop_signal,
    {
        self.stop_signal
    }

    pub fn continue_signal(&self) -> (r: i32)
        ensures
            r == self@.continue_signal,
    {
        self.continue_signal
    }

    pub fn click_events(&self) -> (r: bool)
        ensures
            r == self@.click_events,
    {
        self.click_events
    }
}

impl Default for Header {
    /// Version 1, the platform's stop and continue signals, no click events.
    fn default() -> (r: Header)
        ensures
            r@.version == 1,
            r@.stop_signal > 0,
            r@.continue_signal > 0,
            !r@.click_events,
    {
        Header::with_signals(platform_stop_signal(), platform_continue_signal())
    }
}

impl std::str::FromStr for Header {
    type Err = ParseError;

    fn from_str(text: &str) -> Result<Header, ParseError> {
        Header::decode(text)
    }
}

/// Collects the settings of a header before it is sent.
#[derive(Debug, Clone, Copy, PartialEq, Eq, Structural)]
pub struct HeaderBuilder {
    stop_signal: i32,
    continue_signal: i32,
    click_events: bool,
}

/// The mathematical counterpart of [`HeaderBuilder`].
pub struct HeaderBuilderView {
    pub stop_signal: i32,
    pub continue_signal: i32,
    pub click_events: bool,
}

impl View for HeaderBuilder {
    type V = HeaderBuilderView;

    closed spec fn view(&self) -> HeaderBuilderView {
        HeaderBuilderView {
            stop_signal: self.stop_signal,
            continue_signal: self.continue_signal,
            click_events: self.click_events,
        }
    }
}

impl HeaderBuilder {
    /// Starts with the platform's signals and no click events.
    pub fn new() -> (r: HeaderBuilder)
        ensures
            r@.stop_signal > 0,
            r@.continue_signal > 0,
            !r@.click_events,
    {
        HeaderBuilder::with_signals(platform_stop_signal(), platform_continue_signal())
    }

    /// Starts with these signals and no click events.
    pub fn with_signals(stop_signal: i32, continue_signal: i32) -> (r: HeaderBuilder)
        ensures
            r@ == (HeaderBuilderView { stop_signal, continue_signal, click_events: false }),
    {
        HeaderBuilder { stop_signal, continue_signal, click_events: false }
    }

    pub fn click_events(&mut self, enabled: bool) -> (r: &mut Self)
        ensures
            (*r)@ == (HeaderBuilderView { click_events: enabled, ..old(self)@ }),
            *final(self) == *final(r),
    {
        self.click_events = enabled;
        self
    }

    pub fn continue_signal(&mut self, signal: i32) -> (r: &mut Self)
        ensures
            (*r)@ == (HeaderBuilderView { continue_signal: signal, ..old(self)@ }),
            *final(self) == *final(r),
    {
        self.continue_signal = signal;
        self
    }

    pub fn stop_signal(&mut self, signal: i32) -> (r: &mut Self)
        ensures
            (*r)@ == (HeaderBuilderView { stop_signal: signal, ..old(self)@ }),
            *final(self) == *final(r),
    {
        self.stop_signal = signal;
        self
    }

    /// The header with these settings, always of version 1.
    pub fn build(&self) -> (r: Header)
        ensures
            r@ == (HeaderView {
                version: 1,
                stop_signal: self@.stop_signal,
                continue_signal: self@.continue_signal,
                click_events: self@.click_events,
            }),
    {
        Header {
            version: 1,
            stop_signal: self.stop_signal,
            continue_signal: self.continue_signal,
            click_events: self.click_events,
        }
    }
}

/// Decoding the members that a header is written as gives the header back,
/// where neither of its signals is 0 (a 0 would come back as the default).
pub proof fn lemma_header_round_trip(h: HeaderView, stop_default: i32, continue_default: i32)
    requires
        h.stop_signal != 0,
        h.continue_signal != 0,
    ensures
        header_decodes(header_members(h)),
        decoded_header(header_members(h), stop_default, continue_default) == h,
{
    reveal_strlit("version");
    reveal_strlit("stop_signal");
    reveal_strlit("cont_signal");
    reveal_strlit("click_events");
    reveal_with_fuel(lookup, 5);
    assert("cont_signal"@[0] != "stop_signal"@[0]);
    assert("click_events"@.len() == 12 && "version"@.len() == 7 && "stop_signal"@.len() == 11);
    let m = header_members(h);
    assert(m[0].0 == "version"@);
    assert(m[1].0 != "version"@);
    assert(m[2].0 != "version"@ && m[2].0 != "stop_signal"@);
    assert(m[3].0 != "version"@ && m[3].0 != "stop_signal"@ && m[3].0 != "cont_signal"@);
    assert(m.drop_first()[0] == m[1]);
    assert(m.drop_first().drop_first()[0] == m[2]);
    assert(m.drop_first().drop_first().drop_first()[0] == m[3]);
}

} // verus!
