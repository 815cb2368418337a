//! The message envelope: control-plane lifecycle messages and data-plane
//! traffic, each carrying the identifiers that correlate it.
use vstd::prelude::*;

use crate::b64::B64String;
use crate::codes::{CongestionControl, ConsolidationMode, Priority, Reliability};
use crate::error::WireError;
use crate::id::Uuid;
use crate::key_expr::OwnedKeyExprWrapper;
use crate::wire::{QueryWS, ReplyWS, SampleWS};

verus! {

/// How the server buffers what it hands to a client: a queue of the given
/// size, or a ring that keeps only the newest.
#[derive(Debug, Clone, Copy, PartialEq, Eq, Structural)]
pub enum HandlerChannel {
    Fifo(usize),
    Ring(usize),
}

/// The three shapes of a client's reply to a query; exactly one is taken.
#[derive(Debug)]
pub enum QueryReplyVariant {
    Reply { key_expr: OwnedKeyExprWrapper, payload: B64String },
    ReplyErr { payload: B64String },
    ReplyDelete { key_expr: OwnedKeyExprWrapper },
}

/// The fields of a reply object as received: a positive reply, an error
/// reply and a delete reply, each present or absent.
pub type ReplyShapes = (
    Option<(OwnedKeyExprWrapper, B64String)>,
    Option<B64String>,
    Option<OwnedKeyExprWrapper>,
);

/// How many of the three shapes are present.
pub open spec fn shapes_present(s: ReplyShapes) -> nat {
    (if s.0 is Some { 1nat } else { 0nat }) + (if s.1 is Some { 1nat } else { 0nat }) + (
    if s.2 is Some {
        1nat
    } else {
        0nat
    })
}

/// The shapes of a reply: its own arm present, the other two absent.
pub open spec fn reply_shapes(v: QueryReplyVariant) -> ReplyShapes {
    match v {
        QueryReplyVariant::Reply { key_expr, payload } => (Some((key_expr, payload)), None, None),
        QueryReplyVariant::ReplyErr { payload } => (None, Some(payload), None),
        QueryReplyVariant::ReplyDelete { key_expr } => (None, None, Some(key_expr)),
    }
}

/// The reply that a set of shapes stands for, where exactly one is present.
pub open spec fn reply_of_shapes(s: ReplyShapes) -> Option<QueryReplyVariant> {
    match s {
        (Some((key_expr, payload)), None, None) => Some(
            QueryReplyVariant::Reply { key_expr, payload },
        ),
        (None, Some(payload), None) => Some(QueryReplyVariant::ReplyErr { payload }),
        (None, None, Some(key_expr)) => Some(QueryReplyVariant::ReplyDelete { key_expr }),
        _ => None,
    }
}

impl QueryReplyVariant {
    /// Splits a reply into its three shapes, exactly one of them present.
    pub fn into_shapes(self) -> (r: ReplyShapes)
        ensures
            r == reply_shapes(self),
            shapes_present(r) == 1,
    {
        match self {
            QueryReplyVariant::Reply { key_expr, payload } => (Some((key_expr, payload)), None, None),
            QueryReplyVariant::ReplyErr { payload } => (None, Some(payload), None),
            QueryReplyVariant::ReplyDelete { key_expr } => (None, None, Some(key_expr)),
        }
    }

    /// Builds a reply from received shapes; none, or more than one, is a
    /// protocol violation.
    pub fn from_shapes(s: ReplyShapes) -> (r: Result<QueryReplyVariant, WireError>)
        ensures
            r is Ok <==> shapes_present(s) == 1,
            r matches Ok(v) ==> reply_of_shapes(s) == Some(v),
            r is Err ==> r == Err::<QueryReplyVariant, WireError>(WireError::AmbiguousReplyShape),
    {
        match s {
            (Some((key_expr, payload)), None, None) => Ok(
                QueryReplyVariant::Reply { key_expr, payload },
            ),
            (None, Some(payload), None) => Ok(QueryReplyVariant::ReplyErr { payload }),
            (None, None, Some(key_expr)) => Ok(QueryReplyVariant::ReplyDelete { key_expr }),
            _ => Err(WireError::AmbiguousReplyShape),
        }
    }
}

/// Every reply has exactly one shape present, and is rebuilt from its shapes
/// unchanged; shapes with none or several present stand for no reply.
pub proof fn lemma_reply_shapes_exclusive(v: QueryReplyVariant, s: ReplyShapes)
    ensures
        shapes_present(reply_shapes(v)) == 1,
        reply_of_shapes(reply_shapes(v)) == Some(v),
        reply_of_shapes(s) is Some <==> shapes_present(s) == 1,
{
}

/// A client's reply to a query, correlated by the query's identifier.
#[derive(Debug)]
pub struct QueryReplyWS {
    pub query_uuid: Uuid,
    pub result: QueryReplyVariant,
}

/// Traffic of a queryable: a query handed to the client, or its reply.
#[derive(Debug)]
pub enum QueryableMsg {
    Query { queryable_uuid: Uuid, query: QueryWS },
    Reply { reply: QueryReplyWS },
}

/// Data-plane traffic.
#[derive(Debug)]
pub enum DataMsg {
    PublisherPut {
        id: Uuid,
        payload: B64String,
        attachment: Option<B64String>,
        encoding: Option<String>,
    },
    Sample(SampleWS, Uuid),
    GetReply(ReplyWS),
    Queryable(QueryableMsg),
}

/// Control-plane lifecycle messages of sessions, queries, writes and
/// declared entities.
#[derive(Debug)]
pub enum ControlMsg {
    OpenSession,
    CloseSession,
    Session(Uuid),
    Get {
        key_expr: OwnedKeyExprWrapper,
        parameters: Option<String>,
        handler: HandlerChannel,
        id: Uuid,
        consolidation: Option<ConsolidationMode>,
        congestion_control: Option<CongestionControl>,
        priority: Option<Priority>,
        express: Option<bool>,
        encoding: Option<String>,
        payload: Option<B64String>,
        attachment: Option<B64String>,
    },
    GetFinished { id: Uuid },
    Put {
        key_expr: OwnedKeyExprWrapper,
        payload: B64String,
        encoding: Option<String>,
        congestion_control: Option<CongestionControl>,
        priority: Option<Priority>,
        express: Option<bool>,
        attachment: Option<B64String>,
    },
    Delete {
        key_expr: OwnedKeyExprWrapper,
        congestion_control: Option<CongestionControl>,
        priority: Option<Priority>,
        express: Option<bool>,
        attachment: Option<B64String>,
    },
    DeclareSubscriber { key_expr: OwnedKeyExprWrapper, handler: HandlerChannel, id: Uuid },
    Subscriber(Uuid),
    UndeclareSubscriber(Uuid),
    DeclarePublisher {
        key_expr: OwnedKeyExprWrapper,
        encoding: Option<String>,
        congestion_control: Option<CongestionControl>,
        priority: Option<Priority>,
        reliability: Option<Reliability>,
        express: Option<bool>,
        id: Uuid,
    },
    UndeclarePublisher(Uuid),
    DeclareQueryable { key_expr: OwnedKeyExprWrapper, id: Uuid, complete: bool },
    UndeclareQueryable(Uuid),
}

/// The outermost envelope: data plane or control plane.
#[derive(Debug)]
pub enum RemoteAPIMsg {
    Data(DataMsg),
    Control(ControlMsg),
}

} // verus!
