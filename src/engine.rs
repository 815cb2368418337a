//! The messaging engine's objects, as the plain values that the wire
//! encoders read from them.
use vstd::prelude::*;

use crate::codes::{CongestionControl, Priority};
use crate::key_expr::OwnedKeyExprWrapper;

verus! {

/// Whether a sample publishes a value or deletes one.
#[derive(Debug, Clone, Copy, PartialEq, Eq, Structural)]
pub enum SampleKind {
    Put,
    Delete,
}

/// One event matched against a subscription.
#[derive(Debug)]
pub struct Sample {
    pub key_expr: OwnedKeyExprWrapper,
    pub payload: Vec<u8>,
    pub kind: SampleKind,
    pub encoding: String,
    pub timestamp: Option<String>,
    pub congestion_control: CongestionControl,
    pub priority: Priority,
    pub express: bool,
    pub attachment: Option<Vec<u8>>,
}

/// A query received by a queryable.
#[derive(Debug)]
pub struct Query {
    pub key_expr: OwnedKeyExprWrapper,
    pub parameters: String,
    pub encoding: Option<String>,
    pub payload: Option<Vec<u8>>,
    pub attachment: Option<Vec<u8>>,
}

/// The failure arm of a reply.
#[derive(Debug)]
pub struct ReplyError {
    pub payload: Vec<u8>,
    pub encoding: String,
}

/// One reply collected for a query.
#[derive(Debug)]
pub struct Reply {
    pub result: Result<Sample, ReplyError>,
}

} // verus!
