//! Domain objects in their wire form, and the conversions that produce them.
use vstd::prelude::*;

use crate::b64::{b64_text, B64String};
use crate::codes::{congestion_code, priority_code};
use crate::engine::{Query, Reply, ReplyError, Sample, SampleKind};
use crate::error::WireError;
use crate::id::Uuid;
use crate::key_expr::OwnedKeyExprWrapper;

verus! {

/// The text of an optional string.
pub open spec fn opt_text(o: Option<String>) -> Option<Seq<char>> {
    match o {
        Some(s) => Some(s@),
        None => None,
    }
}

/// The text of an optional base64 field.
pub open spec fn opt_b64(o: Option<B64String>) -> Option<Seq<char>> {
    match o {
        Some(s) => Some(s@),
        None => None,
    }
}

/// The base64 text of optional bytes.
pub open spec fn opt_b64_of(o: Option<Vec<u8>>) -> Option<Seq<char>> {
    match o {
        Some(v) => Some(b64_text(v@)),
        None => None,
    }
}

fn wrap_opt_bytes(o: Option<Vec<u8>>) -> (r: Option<B64String>)
    ensures
        opt_b64(r) == opt_b64_of(o),
{
    match o {
        Some(v) => Some(B64String::encode(v.as_slice())),
        None => None,
    }
}

/// The wire form of a sample's kind.
#[derive(Debug, Clone, Copy, PartialEq, Eq, Structural)]
pub enum SampleKindWS {
    Put,
    Delete,
}

pub open spec fn sample_kind_ws(k: SampleKind) -> SampleKindWS {
    match k {
        SampleKind::Put => SampleKindWS::Put,
        SampleKind::Delete => SampleKindWS::Delete,
    }
}

impl SampleKindWS {
    pub fn from(sk: SampleKind) -> (r: SampleKindWS)
        ensures
            r == sample_kind_ws(sk),
    {
        match sk {
            SampleKind::Put => SampleKindWS::Put,
            SampleKind::Delete => SampleKindWS::Delete,
        }
    }
}

/// A sample on the wire. Its delivery codes are always concrete.
#[derive(Debug)]
pub struct SampleWS {
    pub key_expr: OwnedKeyExprWrapper,
    pub value: B64String,
    pub kind: SampleKindWS,
    pub encoding: String,
    pub timestamp: Option<String>,
    pub congestion_control: u8,
    pub priority: u8,
    pub express: bool,
    pub attachement: Option<B64String>,
}

/// `w` is the wire form of the engine sample `s`.
pub open spec fn sample_encodes(w: SampleWS, s: Sample) -> bool {
    &&& w.key_expr@ == s.key_expr@
    &&& w.value@ == b64_text(s.payload@)
    &&& w.kind == sample_kind_ws(s.kind)
    &&& w.encoding@ == s.encoding@
    &&& opt_text(w.timestamp) == opt_text(s.timestamp)
    &&& w.congestion_control == congestion_code(s.congestion_control)
    &&& w.priority == priority_code(s.priority)
    &&& w.express == s.express
    &&& opt_b64(w.attachement) == opt_b64_of(s.attachment)
}

impl SampleWS {
    pub fn from(s: Sample) -> (r: SampleWS)
        ensures
            sample_encodes(r, s),
    {
        let value = B64String::encode(s.payload.as_slice());
        let kind = SampleKindWS::from(s.kind);
        let congestion_control = s.congestion_control.to_code();
        let priority = s.priority.to_code();
        let attachement = wrap_opt_bytes(s.attachment);
        SampleWS {
            key_expr: s.key_expr,
            value,
            kind,
            encoding: s.encoding,
            timestamp: s.timestamp,
            congestion_control,
            priority,
            express: s.express,
            attachement,
        }
    }
}

/// The failure arm of a reply on the wire: payload and encoding, always together.
#[derive(Debug)]
pub struct ReplyErrorWS {
    pub payload: B64String,
    pub encoding: String,
}

pub open spec fn reply_error_encodes(w: ReplyErrorWS, e: ReplyError) -> bool {
    &&& w.payload@ == b64_text(e.payload@)
    &&& w.encoding@ == e.encoding@
}

impl ReplyErrorWS {
    pub fn from(r_e: ReplyError) -> (r: ReplyErrorWS)
        ensures
            reply_error_encodes(r, r_e),
    {
        ReplyErrorWS { payload: B64String::encode(r_e.payload.as_slice()), encoding: r_e.encoding }
    }
}

/// One reply to a query on the wire, correlated by the query's identifier.
#[derive(Debug)]
pub struct ReplyWS {
    pub query_uuid: Uuid,
    pub result: Result<SampleWS, ReplyErrorWS>,
}

impl ReplyWS {
    pub fn from(reply: Reply, uuid: Uuid) -> (r: ReplyWS)
        ensures
            r.query_uuid == uuid,
            reply.result is Ok <==> r.result is Ok,
            reply.result matches Ok(s) ==> sample_encodes(r.result->Ok_0, s),
            reply.result matches Err(e) ==> reply_error_encodes(r.result->Err_0, e),
    {
        match reply.result {
            Ok(sample) => ReplyWS { query_uuid: uuid, result: Ok(SampleWS::from(sample)) },
            Err(err) => ReplyWS { query_uuid: uuid, result: Err(ReplyErrorWS::from(err)) },
        }
    }
}

/// A query on the wire, as delivered to the client that declared the queryable.
#[derive(Debug)]
pub struct QueryWS {
    pub query_uuid: Uuid,
    pub key_expr: OwnedKeyExprWrapper,
    pub parameters: String,
    pub encoding: Option<String>,
    pub attachment: Option<B64String>,
    pub payload: Option<B64String>,
}

impl QueryWS {
    pub fn from(q: Query, uuid: Uuid) -> (r: QueryWS)
        ensures
            r.query_uuid == uuid,
            r.key_expr@ == q.key_expr@,
            r.parameters@ == q.parameters@,
            opt_text(r.encoding) == opt_text(q.encoding),
            opt_b64(r.attachment) == opt_b64_of(q.attachment),
            opt_b64(r.payload) == opt_b64_of(q.payload),
    {
        let payload = wrap_opt_bytes(q.payload);
        let attachment = wrap_opt_bytes(q.attachment);
        QueryWS {
            query_uuid: uuid,
            key_expr: q.key_expr,
            parameters: q.parameters,
            encoding: q.encoding,
            attachment,
            payload,
        }
    }
}

} // verus!
