use cbor_error::code::ErrorCode;
use cbor_error::error::Error;
use std::io;

#[test]
fn fixed_text_of_each_category() {
    assert_eq!(ErrorCode::EofWhileParsingValue.to_string(), "EOF while parsing a value");
    assert_eq!(ErrorCode::EofWhileParsingArray.to_string(), "EOF while parsing an array");
    assert_eq!(ErrorCode::EofWhileParsingMap.to_string(), "EOF while parsing a map");
    assert_eq!(ErrorCode::NumberOutOfRange.to_string(), "number out of range");
    assert_eq!(ErrorCode::LengthOutOfRange.to_string(), "length out of range");
    assert_eq!(ErrorCode::InvalidUtf8.to_string(), "invalid UTF-8");
    assert_eq!(ErrorCode::UnassignedCode.to_string(), "unassigned type");
    assert_eq!(ErrorCode::UnexpectedCode.to_string(), "unexpected code");
    assert_eq!(ErrorCode::TrailingData.to_string(), "trailing data");
    assert_eq!(ErrorCode::ArrayTooShort.to_string(), "array too short");
    assert_eq!(ErrorCode::ArrayTooLong.to_string(), "array too long");
    assert_eq!(ErrorCode::RecursionLimitExceeded.to_string(), "recursion limit exceeded");
}

#[test]
fn message_text_is_verbatim() {
    let code = ErrorCode::Message("missing field `x`".to_string());
    assert_eq!(code.to_string(), "missing field `x`");
    assert_eq!(ErrorCode::Message(String::new()).to_string(), "");
}

#[test]
fn io_text_is_that_of_the_fault() {
    let fault = io::Error::new(io::ErrorKind::UnexpectedEof, "short read");
    let expected = fault.to_string();
    assert_eq!(ErrorCode::Io(fault).to_string(), expected);
    assert_eq!(expected, "short read");
}

#[test]
fn every_category_unlocalized_and_localized() {
    let codes = vec![
        (ErrorCode::EofWhileParsingValue, "EOF while parsing a value"),
        (ErrorCode::EofWhileParsingArray, "EOF while parsing an array"),
        (ErrorCode::EofWhileParsingMap, "EOF while parsing a map"),
        (ErrorCode::NumberOutOfRange, "number out of range"),
        (ErrorCode::LengthOutOfRange, "length out of range"),
        (ErrorCode::InvalidUtf8, "invalid UTF-8"),
        (ErrorCode::UnassignedCode, "unassigned type"),
        (ErrorCode::UnexpectedCode, "unexpected code"),
        (ErrorCode::TrailingData, "trailing data"),
        (ErrorCode::ArrayTooShort, "array too short"),
        (ErrorCode::ArrayTooLong, "array too long"),
        (ErrorCode::RecursionLimitExceeded, "recursion limit exceeded"),
        (ErrorCode::Message("free text".to_string()), "free text"),
        (ErrorCode::Io(io::Error::new(io::ErrorKind::Other, "disk full")), "disk full"),
    ];
    for (code, text) in codes {
        let plain = code.to_string();
        assert_eq!(plain, text);
        let e = Error::syntax(code, 42);
        assert_eq!(e.to_string(), format!("{} at offset 42", text));
    }
    assert_eq!(Error::syntax(ErrorCode::UnassignedCode, 0).to_string(), "unassigned type");
}
