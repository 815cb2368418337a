//! Binary payloads carried as standard base64 text.
use vstd::prelude::*;

use crate::error::WireError;

verus! {

#[verifier::external_type_specification]
#[verifier::external_body]
pub struct ExDecodeError(base64::DecodeError);

/// The standard, padded base64 text of `b`.
pub uninterp spec fn b64_text(b: Seq<u8>) -> Seq<char>;

/// Relies on `Engine::encode` of base64's `STANDARD` engine: the padded
/// standard-alphabet text of the bytes.
#[verifier::external_body]
fn b64_encode(b: &[u8]) -> (r: String)
    ensures
        r@ == b64_text(b@),
{
    base64::Engine::encode(&base64::engine::general_purpose::STANDARD, b)
}

/// Relies on `Engine::decode` of base64's `STANDARD` engine, which requires
/// canonical padding and zero trailing bits: it accepts exactly the texts that
/// its encoder produces, and gives back the bytes that were encoded.
#[verifier::external_body]
fn b64_decode(s: &str) -> (r: Result<Vec<u8>, base64::DecodeError>)
    ensures
        r is Ok ==> b64_text(r->Ok_0@) == s@,
        forall|b: Seq<u8>| #[trigger] b64_text(b) == s@ ==> r is Ok && r->Ok_0@ == b,
{
    base64::Engine::decode(&base64::engine::general_purpose::STANDARD, s.as_bytes())
}

/// Whether `s` is the base64 text of some byte sequence.
pub open spec fn is_b64_text(s: Seq<char>) -> bool {
    exists|b: Seq<u8>| #[trigger] b64_text(b) == s
}

/// Text that stands for a byte sequence on a text-only channel.
#[derive(Debug)]
pub struct B64String {
    text: String,
}

impl View for B64String {
    type V = Seq<char>;

    closed spec fn view(&self) -> Seq<char> {
        self.text@
    }
}

impl B64String {
    /// Takes text as received; it is checked only when decoded.
    pub fn from(value: String) -> (r: B64String)
        ensures
            r@ == value@,
    {
        B64String { text: value }
    }

    /// The base64 text of `bytes`.
    pub fn encode(bytes: &[u8]) -> (r: B64String)
        ensures
            r@ == b64_text(bytes@),
    {
        B64String { text: b64_encode(bytes) }
    }

    pub fn as_str(&self) -> (r: &str)
        ensures
            r@ == self@,
    {
        self.text.as_str()
    }

    /// The bytes that this text stands for. Decoding the text of any byte
    /// sequence gives back exactly that sequence; text that is the encoding
    /// of nothing is an error, never partial bytes.
    pub fn b64_to_bytes(self) -> (r: Result<Vec<u8>, WireError>)
        ensures
            r is Ok <==> is_b64_text(self@),
            r matches Ok(v) ==> b64_text(v@) == self@,
            forall|b: Seq<u8>| #[trigger] b64_text(b) == self@ ==> (r matches Ok(v) && v@ == b),
            r is Err ==> r == Err::<Vec<u8>, WireError>(WireError::MalformedBinaryPayload),
    {
        match b64_decode(self.text.as_str()) {
            Ok(v) => {
                assert(b64_text(v@) == self@);
                Ok(v)
            },
            Err(_) => Err(WireError::MalformedBinaryPayload),
        }
    }
}

impl Clone for B64String {
    fn clone(&self) -> (r: Self)
        ensures
            r == *self,
    {
        B64String { text: self.text.clone() }
    }
}

} // verus!
