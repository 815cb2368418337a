//! Validated key expressions.
use vstd::prelude::*;

use crate::error::WireError;

verus! {

/// Whether the network accepts `s` as a key expression.
pub uninterp spec fn is_key_expr(s: Seq<char>) -> bool;

/// Relies on zenoh's `OwnedKeyExpr::try_from(&str)`: whether the text is
/// accepted as a key expression (it is kept as given, not canonized).
#[verifier::external_body]
fn key_expr_accepted(s: &str) -> (r: bool)
    ensures
        r == is_key_expr(s@),
{
    match zenoh::key_expr::OwnedKeyExpr::try_from(s) {
        Ok(_) => true,
        Err(_) => false,
    }
}

/// A key expression, valid by construction and compared by its text.
#[derive(Debug)]
pub struct OwnedKeyExprWrapper {
    text: String,
}

impl View for OwnedKeyExprWrapper {
    type V = Seq<char>;

    closed spec fn view(&self) -> Seq<char> {
        self.text@
    }
}

impl OwnedKeyExprWrapper {
    #[verifier::type_invariant]
    spec fn inv(&self) -> bool {
        is_key_expr(self.text@)
    }

    /// Checks `s`; invalid syntax fails here and nowhere later.
    pub fn new(s: String) -> (r: Result<OwnedKeyExprWrapper, WireError>)
        ensures
            r is Ok <==> is_key_expr(s@),
            r matches Ok(k) ==> k@ == s@,
            r is Err ==> r == Err::<OwnedKeyExprWrapper, WireError>(WireError::MalformedKeyExpr),
    {
        if key_expr_accepted(s.as_str()) {
            Ok(OwnedKeyExprWrapper { text: s })
        } else {
            Err(WireError::MalformedKeyExpr)
        }
    }

    pub fn as_str(&self) -> (r: &str)
        ensures
            r@ == self@,
            is_key_expr(r@),
    {
        proof {
            use_type_invariant(self);
        }
        self.text.as_str()
    }
}

impl Clone for OwnedKeyExprWrapper {
    fn clone(&self) -> (r: Self)
        ensures
            r == *self,
    {
        proof {
            use_type_invariant(self);
        }
        OwnedKeyExprWrapper { text: self.text.clone() }
    }
}

} // verus!
