//! What can go wrong when a post is read from or written as text.

use vstd::prelude::*;

verus! {

/// One of the five members of a post's JSON object.
#[derive(Clone, Copy, Debug, PartialEq, Eq, Structural)]
pub enum Field {
    Summary,
    Contents,
    AuthorHandle,
    DateTime,
    Uuid,
}

impl Field {
    /// The member's key on the wire.
    pub open spec fn spec_name(self) -> Seq<char> {
        match self {
            Field::Summary => "summary"@,
            Field::Contents => "contents"@,
            Field::AuthorHandle => "author_handle"@,
            Field::DateTime => "date_time"@,
            Field::Uuid => "uuid"@,
        }
    }

    /// The member's key on the wire.
    pub fn name(self) -> (name: &'static str)
        ensures
            name@ == self.spec_name(),
    {
        match self {
            Field::Summary => "summary",
            Field::Contents => "contents",
            Field::AuthorHandle => "author_handle",
            Field::DateTime => "date_time",
            Field::Uuid => "uuid",
        }
    }
}

/// Why a text was not accepted as a post or an id, or why a post could not
/// be written.
#[derive(Clone, Copy, Debug, PartialEq, Eq, Structural)]
pub enum PostError {
    /// The text nests arrays and objects too deeply, has too long a key or
    /// exponent, or is too long, to be handed to the JSON parser.
    UnsupportedJson,
    /// The text is not a JSON document.
    MalformedJson,
    /// The document has no member of this name whose value is a string.
    MissingField(Field),
    /// The text is not a date and time.
    InvalidTimestamp,
    /// The text is not a UUID.
    InvalidId,
    /// The post cannot be written as JSON: its time has no text.
    Unencodable,
    /// The request has no path parameter `id`.
    MissingParameter,
}

impl PostError {
    /// The short description that a reply carries for this error.
    pub open spec fn spec_description(self) -> Seq<char> {
        match self {
            PostError::UnsupportedJson => "unsupported JSON"@,
            PostError::MalformedJson => "malformed JSON"@,
            PostError::MissingField(field) => "missing field: "@ + field.spec_name(),
            PostError::InvalidTimestamp => "invalid date and time"@,
            PostError::InvalidId => "invalid UUID"@,
            PostError::Unencodable => "post cannot be encoded"@,
            PostError::MissingParameter => "missing parameter: id"@,
        }
    }

    /// The short description that a reply carries for this error.
    pub fn description(&self) -> (text: String)
        ensures
            text@ == self.spec_description(),
    {
        match self {
            PostError::UnsupportedJson => "unsupported JSON".to_owned(),
            PostError::MalformedJson => "malformed JSON".to_owned(),
            PostError::MissingField(field) => {
                let mut text = "missing field: ".to_owned();
                text.append(field.name());
                text
            },
            PostError::InvalidTimestamp => "invalid date and time".to_owned(),
            PostError::InvalidId => "invalid UUID".to_owned(),
            PostError::Unencodable => "post cannot be encoded".to_owned(),
            PostError::MissingParameter => "missing parameter: id".to_owned(),
        }
    }
}

} // verus!
