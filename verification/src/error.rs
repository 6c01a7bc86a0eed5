//! The failures of the library.

use vstd::prelude::*;

verus! {

/// The fields that a content-part description may be asked for.
#[derive(Debug, Clone, Copy, PartialEq, Eq, Structural)]
pub enum FieldName {
    /// `type`, the discriminator of a content part.
    Type,
    /// `text`, the payload of a text part.
    Text,
    /// `image_url`, the nested record of an image part.
    ImageUrl,
    /// `url`, the payload inside the `image_url` record.
    Url,
}

/// Every way in which an operation of this library can fail.
#[derive(Debug, PartialEq, Eq)]
pub enum SecureError {
    /// Bytes that were expected to be text are not valid UTF-8, or a
    /// response body could not be decoded. Carries a description.
    Decode(String),
    /// A content-part description lacks a required field.
    MissingField(FieldName),
    /// A content-part description holds a field of the wrong kind.
    WrongKind(FieldName),
    /// An entry of a content list is not a key/value record.
    NotARecord,
    /// The `type` of a content part is neither `text` nor `image_url`.
    /// Carries the offending value.
    UnsupportedContentType(String),
    /// The transport could not deliver the request. Carries the cause.
    Connection(String),
    /// The server answered with a status outside the success range.
    Api { status: u16, body: String },
    /// The server answered successfully, with no choice at all.
    NoChoices,
}

/// The mathematical value of a [`SecureError`]: strings are character
/// sequences.
pub enum ErrorView {
    Decode(Seq<char>),
    MissingField(FieldName),
    WrongKind(FieldName),
    NotARecord,
    UnsupportedContentType(Seq<char>),
    Connection(Seq<char>),
    Api { status: u16, body: Seq<char> },
    NoChoices,
}

impl View for SecureError {
    type V = ErrorView;

    open spec fn view(&self) -> ErrorView {
        match self {
            SecureError::Decode(detail) => ErrorView::Decode(detail@),
            SecureError::MissingField(field) => ErrorView::MissingField(*field),
            SecureError::WrongKind(field) => ErrorView::WrongKind(*field),
            SecureError::NotARecord => ErrorView::NotARecord,
            SecureError::UnsupportedContentType(value) => ErrorView::UnsupportedContentType(
                value@,
            ),
            SecureError::Connection(cause) => ErrorView::Connection(cause@),
            SecureError::Api { status, body } => ErrorView::Api { status: *status, body: body@ },
            SecureError::NoChoices => ErrorView::NoChoices,
        }
    }
}

/// The description carried by the decode error of a text accessor. It is
/// the same for every input: nothing of the offending bytes is in it.
pub open spec fn decode_diagnostic() -> Seq<char> {
    "UTF-8 decode error"@
}

/// The error that a text accessor returns on bytes that are not text.
pub open spec fn not_text() -> ErrorView {
    ErrorView::Decode(decode_diagnostic())
}

impl SecureError {
    /// The decode error of a text accessor.
    pub fn invalid_text() -> (error: SecureError)
        ensures
            error@ == not_text(),
    {
        SecureError::Decode("UTF-8 decode error".to_owned())
    }
}

} // verus!
