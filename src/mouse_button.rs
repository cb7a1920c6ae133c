//! The pointer button of a click, which travels as a small integer.
use crate::json::{message_of, JsonValue, JsonView};
use crate::ParseError;
use vstd::prelude::*;
use vstd::string::*;

verus! {

/// A pointer button. Codes that the protocol does not name decode to
/// `Unknown`, which encodes as 0.
#[derive(Debug, PartialEq, Eq, Structural, Clone, Copy)]
pub enum MouseButton {
    Left,
    Right,
    Middle,
    WheelUp,
    WheelDown,
    Forward,
    Back,
    Unknown,
}

/// The codes that name a button.
pub open spec fn is_known_code(n: u64) -> bool {
    n == 1 || n == 2 || n == 3 || n == 4 || n == 5 || n == 8 || n == 9
}

impl MouseButton {
    /// The wire code of a button.
    pub open spec fn code(self) -> u64 {
        match self {
            MouseButton::Left => 1,
            MouseButton::Middle => 2,
            MouseButton::Right => 3,
            MouseButton::WheelUp => 4,
            MouseButton::WheelDown => 5,
            MouseButton::Back => 8,
            MouseButton::Forward => 9,
            MouseButton::Unknown => 0,
        }
    }

    /// The button that a wire code names.
    pub open spec fn of_code(n: u64) -> MouseButton {
        if n == 1 {
            MouseButton::Left
        } else if n == 2 {
            MouseButton::Middle
        } else if n == 3 {
            MouseButton::Right
        } else if n == 4 {
            MouseButton::WheelUp
        } else if n == 5 {
            MouseButton::WheelDown
        } else if n == 8 {
            MouseButton::Back
        } else if n == 9 {
            MouseButton::Forward
        } else {
            MouseButton::Unknown
        }
    }

    /// The wire code of this button (0 for `Unknown`).
    pub fn number_code(&self) -> (r: u64)
        ensures
            r == self.code(),
    {
        match self {
            MouseButton::Left => 1,
            MouseButton::Middle => 2,
            MouseButton::Right => 3,
            MouseButton::WheelUp => 4,
            MouseButton::WheelDown => 5,
            MouseButton::Forward => 9,
            MouseButton::Back => 8,
            MouseButton::Unknown => 0,
        }
    }

    /// The button for a wire code; any code that names none gives `Unknown`.
    pub fn from_code(n: u64) -> (r: MouseButton)
        ensures
            r == MouseButton::of_code(n),
    {
        if n == 1 {
            MouseButton::Left
        } else if n == 2 {
            MouseButton::Middle
        } else if n == 3 {
            MouseButton::Right
        } else if n == 4 {
            MouseButton::WheelUp
        } else if n == 5 {
            MouseButton::WheelDown
        } else if n == 8 {
            MouseButton::Back
        } else if n == 9 {
            MouseButton::Forward
        } else {
            MouseButton::Unknown
        }
    }

    /// What decoding makes of a JSON value: any integer is a button (a
    /// negative one is `Unknown`), anything else is refused.
    pub open spec fn decoded(v: JsonView) -> Option<MouseButton> {
        match v {
            JsonView::Unsigned(n) => Some(MouseButton::of_code(n)),
            JsonView::Negative(_) => Some(MouseButton::Unknown),
            _ => None,
        }
    }

    /// Decodes a button from its JSON value.
    pub fn decode(v: &JsonValue) -> (r: Result<MouseButton, ParseError>)
        ensures
            r is Ok <==> MouseButton::decoded(v@) is Some,
            r is Ok ==> r->Ok_0 == MouseButton::decoded(v@)->0,
            r is Err ==> r->Err_0 is InvalidData && message_of(r->Err_0)
                == "invalid button: expected an integer"@,
    {
        match v {
            JsonValue::Unsigned(n) => Ok(MouseButton::from_code(*n)),
            JsonValue::Negative(_) => Ok(MouseButton::Unknown),
            _ => Err(ParseError::InvalidData(String::from_str("invalid button: expected an integer"))),
        }
    }

    /// The JSON value of this button: its code.
    pub fn encode(&self) -> (r: JsonValue)
        ensures
            r@ == JsonView::Unsigned(self.code()),
    {
        JsonValue::Unsigned(self.number_code())
    }
}

/// A named code decodes to the button that encodes back to it; any other code
/// decodes to `Unknown`, which encodes to 0 and not to the code it came from.
pub proof fn lemma_button_codes(n: u64)
    ensures
        is_known_code(n) ==> MouseButton::decoded(JsonView::Unsigned(n)) is Some
            && MouseButton::decoded(JsonView::Unsigned(n))->0.code() == n,
        !is_known_code(n) ==> MouseButton::decoded(JsonView::Unsigned(n)) == Some(
            MouseButton::Unknown,
        ) && MouseButton::Unknown.code() == 0,
{
}

/// A negative code decodes to `Unknown`, never to an error.
pub proof fn lemma_negative_codes(i: i64)
    ensures
        MouseButton::decoded(JsonView::Negative(i)) == Some(MouseButton::Unknown),
{
}

} // verus!
