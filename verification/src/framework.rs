//! The constructors through which a serialization framework reports a fault
//! that is none of the codec's own: a free message, and a value of the wrong
//! type. The framework knows no position in the stream, so the offset of
//! every error made here is 0.

use crate::code::ErrorCode;
use crate::error::{Error, ErrorView};
use vstd::prelude::*;
use vstd::string::to_string_from_display_ensures;
use vstd::string::StringExecFns;

verus! {

/// `serde::de::Unexpected`, which verified code hands to its `Display`
/// without looking inside: nothing is claimed of its contents.
#[verifier::external_type_specification]
#[verifier::external_body]
pub struct ExUnexpected<'a>(serde::de::Unexpected<'a>);

/// What was met in the input where something else was due, as far as an
/// error message tells it. Whoever holds a descriptor of the framework says
/// which of the two it is: `Unit` for its unit value, [`Actual::described`]
/// for any other.
#[derive(Debug)]
pub enum Actual {
    /// The absence of a value.
    Unit,
    /// Anything else, by the words that describe it.
    Other(String),
}

/// The message for a value of the wrong type: the unit value is called
/// `null`, anything else goes by its own description.
pub open spec fn invalid_type_text(actual: Actual, expected: Seq<char>) -> Seq<char> {
    match actual {
        Actual::Unit => "invalid type: null, expected "@ + expected,
        Actual::Other(described) => "invalid type: "@ + described@ + ", expected "@ + expected,
    }
}

/// An error made by [`Error::invalid_type`] reads `invalid type: null,
/// expected E` where the unit value was met, and `invalid type: A, expected E`
/// where anything else was, `A` and `E` being the words handed in.
pub proof fn lemma_invalid_type_display(
    e: ErrorView,
    actual: Actual,
    expected: Seq<char>,
    text: Seq<char>,
)
    requires
        e.offset == 0,
        e.code matches ErrorCode::Message(message) && message@ == invalid_type_text(
            actual,
            expected,
        ),
        e.displays_as(text),
    ensures
        actual is Unit ==> text == "invalid type: null, expected "@ + expected,
        actual matches Actual::Other(described) ==> text == "invalid type: "@ + described@
            + ", expected "@ + expected,
{
}

impl Actual {
    /// `unexp` by the words that describe it: those of its own `Display`.
    pub fn described(unexp: &serde::de::Unexpected<'_>) -> (actual: Actual)
        ensures
            actual matches Actual::Other(words) && to_string_from_display_ensures::<
                serde::de::Unexpected<'_>,
            >(unexp, words),
    {
        Actual::Other(unexp.to_string())
    }
}

impl Error {
    /// An error whose text is `msg` as its own `Display` renders it.
    pub fn custom<T: core::fmt::Display + ?Sized>(msg: &T) -> (e: Error)
        ensures
            e@.offset == 0,
            e@.code matches ErrorCode::Message(text) && to_string_from_display_ensures::<T>(
                msg,
                text,
            ),
    {
        Error::syntax(ErrorCode::Message(msg.to_string()), 0)
    }

    /// An error that says that `actual` was met where `expected` was due.
    pub fn invalid_type(actual: &Actual, expected: &str) -> (e: Error)
        ensures
            e@.offset == 0,
            e@.code matches ErrorCode::Message(text) && text@ == invalid_type_text(
                *actual,
                expected@,
            ),
    {
        let mut text = match actual {
            Actual::Unit => "invalid type: null".to_owned(),
            Actual::Other(described) => {
                let mut text = "invalid type: ".to_owned();
                text.append(described.as_str());
                text
            },
        };
        text.append(", expected ");
        text.append(expected);
        proof {
            reveal_strlit("invalid type: null");
            reveal_strlit("invalid type: ");
            reveal_strlit(", expected ");
            reveal_strlit("invalid type: null, expected ");
            assert(text@ =~= invalid_type_text(*actual, expected@));
        }
        Error::syntax(ErrorCode::Message(text), 0)
    }
}

} // verus!
