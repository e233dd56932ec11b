//! The categories of fault that the codec reports, and the text of each.

use vstd::prelude::*;
use vstd::string::to_string_from_display_ensures;

verus! {

/// `std::io::Error`, which verified code carries through without looking
/// inside: nothing is claimed of its contents.
#[verifier::external_type_specification]
#[verifier::external_body]
pub struct ExIoError(std::io::Error);

/// What went wrong. `Message` and `Io` are the two open-ended categories; the
/// meaning of every other one is fixed by its tag.
#[derive(Debug)]
pub enum ErrorCode {
    /// A fault described by free text.
    Message(String),
    /// A fault of the transport underneath the codec.
    Io(std::io::Error),
    /// The input ended in the middle of a value.
    EofWhileParsingValue,
    /// The input ended in the middle of an array.
    EofWhileParsingArray,
    /// The input ended in the middle of a map.
    EofWhileParsingMap,
    /// A number does not fit the type that was to hold it.
    NumberOutOfRange,
    /// A length does not fit the machine.
    LengthOutOfRange,
    /// A text string is not valid UTF-8.
    InvalidUtf8,
    /// A code that the format leaves unassigned.
    UnassignedCode,
    /// A code that the format knows, where it may not stand.
    UnexpectedCode,
    /// Input left over after the value.
    TrailingData,
    /// An array with fewer items than were due.
    ArrayTooShort,
    /// An array with more items than were due.
    ArrayTooLong,
    /// Values nested deeper than the limit allows.
    RecursionLimitExceeded,
}

impl ErrorCode {
    /// Whether `text` is the text of this category: the message itself for
    /// `Message`, a rendering of the wrapped fault by its own `Display` for
    /// `Io`, and the fixed wording of the tag otherwise.
    pub open spec fn displays_as(self, text: Seq<char>) -> bool {
        match self {
            ErrorCode::Message(msg) => text == msg@,
            ErrorCode::Io(err) => exists|s: String|
                #[trigger] to_string_from_display_ensures::<std::io::Error>(&err, s) && s@ == text,
            ErrorCode::EofWhileParsingValue => text == "EOF while parsing a value"@,
            ErrorCode::EofWhileParsingArray => text == "EOF while parsing an array"@,
            ErrorCode::EofWhileParsingMap => text == "EOF while parsing a map"@,
            ErrorCode::NumberOutOfRange => text == "number out of range"@,
            ErrorCode::LengthOutOfRange => text == "length out of range"@,
            ErrorCode::InvalidUtf8 => text == "invalid UTF-8"@,
            ErrorCode::UnassignedCode => text == "unassigned type"@,
            ErrorCode::UnexpectedCode => text == "unexpected code"@,
            ErrorCode::TrailingData => text == "trailing data"@,
            ErrorCode::ArrayTooShort => text == "array too short"@,
            ErrorCode::ArrayTooLong => text == "array too long"@,
            ErrorCode::RecursionLimitExceeded => text == "recursion limit exceeded"@,
        }
    }

    /// The text of this category.
    pub fn to_string(&self) -> (s: String)
        ensures
            self.displays_as(s@),
    {
        match self {
            ErrorCode::Message(msg) => msg.clone(),
            ErrorCode::Io(err) => err.to_string(),
            ErrorCode::EofWhileParsingValue => "EOF while parsing a value".to_owned(),
            ErrorCode::EofWhileParsingArray => "EOF while parsing an array".to_owned(),
            ErrorCode::EofWhileParsingMap => "EOF while parsing a map".to_owned(),
            ErrorCode::NumberOutOfRange => "number out of range".to_owned(),
            ErrorCode::LengthOutOfRange => "length out of range".to_owned(),
            ErrorCode::InvalidUtf8 => "invalid UTF-8".to_owned(),
            ErrorCode::UnassignedCode => "unassigned type".to_owned(),
            ErrorCode::UnexpectedCode => "unexpected code".to_owned(),
            ErrorCode::TrailingData => "trailing data".to_owned(),
            ErrorCode::ArrayTooShort => "array too short".to_owned(),
            ErrorCode::ArrayTooLong => "array too long".to_owned(),
            ErrorCode::RecursionLimitExceeded => "recursion limit exceeded".to_owned(),
        }
    }
}

} // verus!
