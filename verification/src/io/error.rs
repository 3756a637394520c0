use vstd::prelude::*;

use crate::io::text::{decimal_text, push_decimal};

verus! {

/// A read asked for more bytes than the readable region still holds.
#[derive(Debug, Clone, Copy, PartialEq, Eq, Structural)]
pub struct EndOfFile;

/// The header does not name a format version that this library decodes.
#[derive(Debug, Clone, Copy, PartialEq, Eq, Structural)]
pub struct NotSupport;

/// Why a decoding pass stopped.
#[derive(Debug, Clone, Copy, PartialEq, Eq, Structural)]
pub enum ParseError {
    /// The version string of the header is not one of the known ones.
    UnsupportedVersion,
    /// A field needs more bytes than its record, or the file, still holds.
    UnexpectedEndOfFile,
    /// A value inside a class dump or a primitive array carries a basic-type
    /// tag that the format does not define. `position` is the offset of the
    /// byte that follows the tag.
    InvalidFieldType { tag: u8, position: u64 },
    /// A heap dump holds a sub-record whose tag is not known. Sub-records
    /// carry no length, so nothing after this point can be trusted.
    /// `position` is the offset of the byte that follows the tag.
    UnknownSubRecord { tag: u8, position: u64 },
}

impl EndOfFile {
    /// The text that describes this error.
    pub fn message(&self) -> (text: String)
        ensures
            text@ == "Reached end of file"@,
    {
        String::from_str("Reached end of file")
    }
}

impl NotSupport {
    /// The text that describes this error.
    pub fn message(&self) -> (text: String)
        ensures
            text@ == "Not support"@,
    {
        String::from_str("Not support")
    }
}

impl From<EndOfFile> for ParseError {
    fn from(eof: EndOfFile) -> (e: ParseError) {
        ParseError::UnexpectedEndOfFile
    }
}

impl vstd::std_specs::convert::FromSpecImpl<EndOfFile> for ParseError {
    open spec fn obeys_from_spec() -> bool {
        true
    }

    open spec fn from_spec(eof: EndOfFile) -> ParseError {
        ParseError::UnexpectedEndOfFile
    }
}

impl From<NotSupport> for ParseError {
    fn from(unsupported: NotSupport) -> (e: ParseError) {
        ParseError::UnsupportedVersion
    }
}

impl vstd::std_specs::convert::FromSpecImpl<NotSupport> for ParseError {
    open spec fn obeys_from_spec() -> bool {
        true
    }

    open spec fn from_spec(unsupported: NotSupport) -> ParseError {
        ParseError::UnsupportedVersion
    }
}

/// The text that describes a [`ParseError`].
pub open spec fn spec_message(e: ParseError) -> Seq<char> {
    match e {
        ParseError::UnsupportedVersion => "unsupported version"@,
        ParseError::UnexpectedEndOfFile => "unexpected end of file"@,
        ParseError::InvalidFieldType { tag, position } => "invalid field type "@ + decimal_text(
            tag as nat,
        ) + ", position "@ + decimal_text(position as nat),
        ParseError::UnknownSubRecord { tag, position } => "unknown sub-record "@ + decimal_text(
            tag as nat,
        ) + ", position "@ + decimal_text(position as nat),
    }
}

impl ParseError {
    /// The text that describes this error.
    pub fn message(&self) -> (text: String)
        ensures
            text@ == spec_message(*self),
    {
        match self {
            ParseError::UnsupportedVersion => String::from_str("unsupported version"),
            ParseError::UnexpectedEndOfFile => String::from_str("unexpected end of file"),
            ParseError::InvalidFieldType { tag, position } => {
                let mut text = String::from_str("invalid field type ");
                push_decimal(&mut text, *tag as u64);
                text.append(", position ");
                push_decimal(&mut text, *position);
                text
            },
            ParseError::UnknownSubRecord { tag, position } => {
                let mut text = String::from_str("unknown sub-record ");
                push_decimal(&mut text, *tag as u64);
                text.append(", position ");
                push_decimal(&mut text, *position);
                text
            },
        }
    }

    /// Whether the error says that the stream could no longer be followed:
    /// a tag was met that fixes no layout for the bytes behind it.
    pub fn is_desync(&self) -> (b: bool)
        ensures
            b == (*self is InvalidFieldType || *self is UnknownSubRecord),
    {
        match self {
            ParseError::InvalidFieldType { .. } => true,
            ParseError::UnknownSubRecord { .. } => true,
            _ => false,
        }
    }
}

} // verus!
