//! Identifiers of records: 128-bit UUIDs and their textual form.

use vstd::prelude::*;

verus! {

/// A universally unique identifier, held as its 128-bit value.
#[derive(Clone, Copy, Debug, PartialEq, Eq, Structural, Hash)]
pub struct Uuid {
    pub value: u128,
}

/// The canonical text of a UUID: lower-case hexadecimal digits in five
/// groups separated by hyphens.
pub uninterp spec fn uuid_text(value: u128) -> Seq<char>;

/// The UUID that a text denotes, if it denotes one. The hyphenated, the
/// plain, the braced and the URN forms are all read.
pub uninterp spec fn uuid_parse(text: Seq<char>) -> Option<u128>;

/// `uuid::Uuid`'s `Display`, which writes the hyphenated lower-case form.
/// The contract names that text.
#[verifier::external_body]
fn format_hyphenated(value: u128) -> (text: String)
    ensures
        text@ == uuid_text(value),
{
    uuid::Uuid::from_u128(value).to_string()
}

/// `uuid::Uuid::parse_str`. The contract names the outcome; a text that
/// the crate rejects gives `None`.
#[verifier::external_body]
fn parse_text(text: &str) -> (value: Option<u128>)
    ensures
        value == uuid_parse(text@),
{
    match uuid::Uuid::parse_str(text) {
        Ok(id) => Some(id.as_u128()),
        Err(_) => None,
    }
}

impl Uuid {
    /// The identifier that a text denotes.
    pub open spec fn parsed(text: Seq<char>) -> Option<Uuid> {
        match uuid_parse(text) {
            Some(value) => Some(Uuid { value }),
            None => None,
        }
    }

    /// The canonical text of this identifier.
    pub open spec fn text(self) -> Seq<char> {
        uuid_text(self.value)
    }

    pub fn from_u128(value: u128) -> (id: Uuid)
        ensures
            id.value == value,
    {
        Uuid { value }
    }

    pub fn as_u128(&self) -> (value: u128)
        ensures
            value == self.value,
    {
        self.value
    }

    /// Reads an identifier from text.
    pub fn parse_str(text: &str) -> (id: Option<Uuid>)
        ensures
            id == Uuid::parsed(text@),
    {
        match parse_text(text) {
            Some(value) => Some(Uuid { value }),
            None => None,
        }
    }

    /// Writes the identifier in its canonical form.
    pub fn to_text(&self) -> (text: String)
        ensures
            text@ == self.text(),
    {
        format_hyphenated(self.value)
    }
}

} // verus!
