//! Opaque 128-bit identifiers that correlate requests, replies and declared
//! entities.
use vstd::prelude::*;

use crate::error::WireError;

verus! {

/// The hyphenated lower-case text of the identifier with bits `v`.
pub uninterp spec fn uuid_text(v: u128) -> Seq<char>;

/// Relies on uuid's `Uuid::from_u128` and its hyphenated `Display`.
#[verifier::external_body]
fn uuid_to_text(v: u128) -> (r: String)
    ensures
        r@ == uuid_text(v),
{
    uuid::Uuid::from_u128(v).hyphenated().to_string()
}

/// Relies on uuid's `Uuid::parse_str` and `as_u128`: the hyphenated text of
/// an identifier parses back to it (other accepted forms are not described).
#[verifier::external_body]
fn uuid_parse(s: &str) -> (r: Option<u128>)
    ensures
        forall|v: u128| #[trigger] uuid_text(v) == s@ ==> r == Some(v),
{
    match uuid::Uuid::parse_str(s) {
        Ok(u) => Some(u.as_u128()),
        Err(_) => None,
    }
}

/// An identifier, held as its 128 bits.
#[derive(Debug, Clone, Copy, PartialEq, Eq, Structural)]
pub struct Uuid {
    pub value: u128,
}

impl Uuid {
    pub fn to_text(&self) -> (r: String)
        ensures
            r@ == uuid_text(self.value),
    {
        uuid_to_text(self.value)
    }

    /// Reads an identifier; its own hyphenated text always reads back to it.
    pub fn parse(s: &str) -> (r: Result<Uuid, WireError>)
        ensures
            forall|v: u128| #[trigger] uuid_text(v) == s@ ==> r == Ok::<Uuid, WireError>(Uuid { value: v }),
            r is Err ==> r == Err::<Uuid, WireError>(WireError::MalformedId),
    {
        match uuid_parse(s) {
            Some(v) => Ok(Uuid { value: v }),
            None => Err(WireError::MalformedId),
        }
    }
}

} // verus!
