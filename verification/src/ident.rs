//! Post identifiers: 128-bit UUIDs, read and written by the `uuid` crate.

use crate::error::PostError;
use vstd::prelude::*;

verus! {

/// The error of the `uuid` crate, `uuid::Error`, whose inside is not looked
/// into.
#[verifier::external_type_specification]
#[verifier::external_body]
pub struct ExUuidError(uuid::Error);

/// The value that `uuid::Uuid::parse_str` reads from a text, or `None`
/// where it rejects the text.
pub uninterp spec fn uuid_value(text: Seq<char>) -> Option<u128>;

/// The hyphenated lower-case text that the `uuid` crate writes for a value.
pub uninterp spec fn uuid_text(value: u128) -> Seq<char>;

/// Calls `uuid::Uuid::parse_str` and hands the UUID back as the 128-bit
/// number that `Uuid::as_u128` gives for it. Trusted: the outcome is the one
/// that `uuid_value` names for the text.
#[verifier::external_body]
fn parse_uuid(text: &str) -> (parsed: Result<u128, uuid::Error>)
    ensures
        match parsed {
            Ok(value) => uuid_value(text@) == Some(value),
            Err(_) => uuid_value(text@).is_none(),
        },
{
    match uuid::Uuid::parse_str(text) {
        Ok(id) => Ok(id.as_u128()),
        Err(error) => Err(error),
    }
}

/// Makes the UUID of a 128-bit number with `uuid::Uuid::from_u128` and
/// writes it through its `hyphenated` form. Trusted: the text is the one
/// that `uuid_text` names for the number.
#[verifier::external_body]
fn format_uuid(value: u128) -> (text: String)
    ensures
        text@ == uuid_text(value),
{
    uuid::Uuid::from_u128(value).hyphenated().to_string()
}

/// The identifier of a post: a UUID, held as its 128-bit number.
#[derive(Clone, Copy, Debug, PartialEq, Eq, Structural, Hash)]
pub struct PostId {
    pub value: u128,
}

impl PostId {
    /// The identifier with the given number.
    pub fn new(value: u128) -> (id: PostId)
        ensures
            id.value == value,
    {
        PostId { value }
    }

    /// What `parse` makes of a text.
    pub open spec fn spec_parse(text: Seq<char>) -> Result<PostId, PostError> {
        match uuid_value(text) {
            Some(value) => Ok(PostId { value }),
            None => Err(PostError::InvalidId),
        }
    }

    /// Reads an identifier from UUID text.
    pub fn parse(text: &str) -> (parsed: Result<PostId, PostError>)
        ensures
            parsed == Self::spec_parse(text@),
    {
        match parse_uuid(text) {
            Ok(value) => Ok(PostId { value }),
            Err(_) => Err(PostError::InvalidId),
        }
    }

    /// The identifier as hyphenated UUID text.
    pub open spec fn spec_text(self) -> Seq<char> {
        uuid_text(self.value)
    }

    /// Writes the identifier as hyphenated UUID text.
    pub fn to_text(&self) -> (text: String)
        ensures
            text@ == self.spec_text(),
    {
        format_uuid(self.value)
    }
}

} // verus!
