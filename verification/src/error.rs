//! The error value of the codec.

use crate::code::ErrorCode;
use crate::decimal::{decimal, decimal_string};
use vstd::prelude::*;
use vstd::string::StringExecFns;

verus! {

#[derive(Debug)]
struct ErrorImpl {
    code: ErrorCode,
    offset: u64,
}

/// A fault met while encoding or decoding: its category and the byte offset at
/// which it was met, where 0 stands for "no position known".
///
/// The value is held behind one owning pointer, so that a `Result` with this
/// error stays one word wide whatever the category carries.
#[derive(Debug)]
pub struct Error(Box<ErrorImpl>);

/// What an [`Error`] holds: one category and one byte offset.
pub ghost struct ErrorView {
    pub code: ErrorCode,
    pub offset: nat,
}

impl View for Error {
    type V = ErrorView;

    closed spec fn view(&self) -> ErrorView {
        ErrorView { code: self.0.code, offset: self.0.offset as nat }
    }
}

/// `words` as they stand where `offset` is 0, and otherwise `words` followed
/// by ` at offset ` and the decimal numeral of `offset`.
pub open spec fn located(words: Seq<char>, offset: nat) -> Seq<char> {
    if offset == 0 {
        words
    } else {
        words + " at offset "@ + decimal(offset)
    }
}

impl ErrorView {
    /// Whether `text` is the text of this error for a human reader: the text
    /// of its category, located at its offset.
    pub open spec fn displays_as(self, text: Seq<char>) -> bool {
        exists|words: Seq<char>| #[trigger]
            self.code.displays_as(words) && text == located(words, self.offset)
    }
}

/// An error without a position reads as its category does, with nothing
/// after it.
pub proof fn lemma_text_without_offset(e: ErrorView, text: Seq<char>)
    requires
        e.offset == 0,
    ensures
        e.displays_as(text) <==> e.code.displays_as(text),
{
    if e.code.displays_as(text) {
        assert(text == located(text, e.offset));
    }
}

/// An error with a position reads as its category does, followed by
/// ` at offset ` and the offset in decimal.
pub proof fn lemma_text_with_offset(e: ErrorView, text: Seq<char>)
    requires
        e.offset > 0,
    ensures
        e.displays_as(text) <==> exists|words: Seq<char>| #[trigger]
            e.code.displays_as(words) && text == words + " at offset "@ + decimal(e.offset),
{
}

/// `text` located at `offset`.
pub fn with_offset(text: String, offset: u64) -> (s: String)
    ensures
        s@ == located(text@, offset as nat),
{
    if offset == 0 {
        text
    } else {
        let mut s = text;
        s.append(" at offset ");
        let digits = decimal_string(offset);
        s.append(digits.as_str());
        s
    }
}

/// The words that `std::error::Error::description` gives for `err`. Nothing
/// is known of them but that they depend on `err` alone.
pub uninterp spec fn io_description_text(err: std::io::Error) -> Seq<char>;

/// Calls `std::error::Error::description` on `err`. The contract claims only
/// that what comes back are the words of [`io_description_text`].
#[allow(deprecated)]
#[verifier::external_body]
fn io_description(err: &std::io::Error) -> (words: &str)
    ensures
        words@ == io_description_text(*err),
{
    std::error::Error::description(err)
}

impl Error {
    /// The byte offset at which the fault was met; 0 where none is known.
    pub fn offset(&self) -> (n: u64)
        ensures
            n == self@.offset,
    {
        self.0.offset
    }

    /// An error of category `code` at `offset`, both taken as they are.
    pub fn syntax(code: ErrorCode, offset: u64) -> (e: Error)
        ensures
            e@.code == code,
            e@.offset == offset,
    {
        Error(Box::new(ErrorImpl { code, offset }))
    }

    /// An error that wraps a fault of the transport. Such a fault has no
    /// position in the stream, so the offset is 0.
    pub fn io(error: std::io::Error) -> (e: Error)
        ensures
            e@.code == ErrorCode::Io(error),
            e@.offset == 0,
    {
        Error(Box::new(ErrorImpl { code: ErrorCode::Io(error), offset: 0 }))
    }

    /// The fault underneath this one: the wrapped transport fault of an `Io`
    /// error, and nothing for any other category.
    pub fn cause(&self) -> (r: Option<&std::io::Error>)
        ensures
            match self@.code {
                ErrorCode::Io(err) => r == Some(&err),
                _ => r is None,
            },
    {
        match &self.0.code {
            ErrorCode::Io(err) => Some(err),
            _ => None,
        }
    }

    /// A short name for the kind of error: that of the wrapped fault for an
    /// `Io` error, and the same two words for every other category.
    pub fn description(&self) -> (r: &str)
        ensures
            self@.code matches ErrorCode::Io(err) ==> r@ == io_description_text(err),
            self@.code !is Io ==> r@ == "CBOR error"@,
    {
        match &self.0.code {
            ErrorCode::Io(err) => io_description(err),
            _ => "CBOR error",
        }
    }

    /// The text of the error for a human reader: the text of the category,
    /// and, where the offset is not 0, the offset after it.
    pub fn to_string(&self) -> (s: String)
        ensures
            self@.displays_as(s@),
    {
        let text = self.0.code.to_string();
        with_offset(text, self.0.offset)
    }
}

} // verus!
