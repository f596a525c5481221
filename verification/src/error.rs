//! The errors of encoding.

use vstd::prelude::*;
use vstd::string::*;

verus! {

/// A job or a section that cannot be encoded as it stands.
#[derive(Debug, Clone, Copy, PartialEq, Eq, Structural)]
pub enum ValidationError {
    /// The job has no section.
    EmptySections,
    /// The job names no printer.
    BlankPrinter,
    /// The data of a code does not fit the length field of its command.
    PayloadTooLong,
    /// A feed section names a kind of feed that does not exist.
    UnknownFeedType,
}

/// An embedded image that cannot be read.
#[derive(Debug, Clone, Copy, PartialEq, Eq, Structural)]
pub enum DecodeError {
    /// The text is not base64.
    Base64,
    /// The bytes are not an image in a known format.
    Image,
}

/// Why a document was not encoded.
#[derive(Debug, Clone, Copy, PartialEq, Eq, Structural)]
pub enum EncodeError {
    Validation(ValidationError),
    Decode(DecodeError),
}

/// The words that describe an error.
pub open spec fn message_of(error: EncodeError) -> Seq<char> {
    match error {
        EncodeError::Validation(ValidationError::EmptySections) => "No sections to print"@,
        EncodeError::Validation(ValidationError::BlankPrinter) => "Printer not specified"@,
        EncodeError::Validation(ValidationError::PayloadTooLong) => "Code data too long"@,
        EncodeError::Validation(ValidationError::UnknownFeedType) => "Unknown feed type"@,
        EncodeError::Decode(DecodeError::Base64) => "Failed to create image: invalid base64"@,
        EncodeError::Decode(DecodeError::Image) => "Failed to create image: unknown format"@,
    }
}

impl EncodeError {
    /// The words that describe the error, with the section that it came from.
    pub fn message(&self) -> (r: String)
        ensures
            r@ == message_of(*self),
    {
        match self {
            EncodeError::Validation(ValidationError::EmptySections) => {
                "No sections to print".to_owned()
            },
            EncodeError::Validation(ValidationError::BlankPrinter) => {
                "Printer not specified".to_owned()
            },
            EncodeError::Validation(ValidationError::PayloadTooLong) => {
                "Code data too long".to_owned()
            },
            EncodeError::Validation(ValidationError::UnknownFeedType) => {
                "Unknown feed type".to_owned()
            },
            EncodeError::Decode(DecodeError::Base64) => {
                "Failed to create image: invalid base64".to_owned()
            },
            EncodeError::Decode(DecodeError::Image) => {
                "Failed to create image: unknown format".to_owned()
            },
        }
    }
}

} // verus!
