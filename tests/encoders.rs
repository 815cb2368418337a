use zenoh_remote_api::b64::B64String;
use zenoh_remote_api::codes::{CongestionControl, Priority};
use zenoh_remote_api::engine::{Query, Reply, ReplyError, Sample, SampleKind};
use zenoh_remote_api::error::WireError;
use zenoh_remote_api::id::Uuid;
use zenoh_remote_api::key_expr::OwnedKeyExprWrapper;
use zenoh_remote_api::message::QueryReplyVariant;
use zenoh_remote_api::wire::{QueryWS, ReplyErrorWS, ReplyWS, SampleKindWS, SampleWS};

fn key(s: &str) -> OwnedKeyExprWrapper {
    OwnedKeyExprWrapper::new(s.to_string()).unwrap()
}

fn demo_sample() -> Sample {
    Sample {
        key_expr: key("demo/test"),
        payload: vec![1, 2, 3],
        kind: SampleKind::Put,
        encoding: "zenoh/bytes".to_string(),
        timestamp: None,
        congestion_control: CongestionControl::Block,
        priority: Priority::RealTime,
        express: false,
        attachment: None,
    }
}

#[test]
fn sample_encoding_keeps_every_field() {
    let w = SampleWS::from(demo_sample());
    assert_eq!(w.key_expr.as_str(), "demo/test");
    assert_eq!(w.kind, SampleKindWS::Put);
    assert_eq!(w.encoding, "zenoh/bytes");
    assert_eq!(w.timestamp, None);
    assert_eq!(w.priority, 1);
    assert_eq!(w.congestion_control, 1);
    assert!(!w.express);
    assert!(w.attachement.is_none());
    assert_eq!(w.value.as_str(), "AQID");
    assert_eq!(w.value.b64_to_bytes(), Ok(vec![1, 2, 3]));
}

#[test]
fn sample_attachment_and_kind_are_carried() {
    let mut s = demo_sample();
    s.kind = SampleKind::Delete;
    s.attachment = Some(vec![0xff]);
    s.timestamp = Some("7386690599959157260/33".to_string());
    s.priority = Priority::Background;
    s.congestion_control = CongestionControl::Drop;
    s.express = true;
    let w = SampleWS::from(s);
    assert_eq!(w.kind, SampleKindWS::Delete);
    assert_eq!(w.attachement.unwrap().as_str(), "/w==");
    assert_eq!(w.timestamp.as_deref(), Some("7386690599959157260/33"));
    assert_eq!(w.priority, 7);
    assert_eq!(w.congestion_control, 0);
    assert!(w.express);
}

#[test]
fn query_encoding_keeps_every_field() {
    let id = Uuid { value: 42 };
    let q = Query {
        key_expr: key("demo/**"),
        parameters: "a=1;b=2".to_string(),
        encoding: Some("text/plain".to_string()),
        payload: Some(b"hi".to_vec()),
        attachment: None,
    };
    let w = QueryWS::from(q, id);
    assert_eq!(w.query_uuid, id);
    assert_eq!(w.key_expr.as_str(), "demo/**");
    assert_eq!(w.parameters, "a=1;b=2");
    assert_eq!(w.encoding.as_deref(), Some("text/plain"));
    assert_eq!(w.payload.unwrap().as_str(), "aGk=");
    assert!(w.attachment.is_none());
}

#[test]
fn reply_error_keeps_payload_and_encoding() {
    let w = ReplyErrorWS::from(ReplyError { payload: vec![9, 9], encoding: "text/plain".to_string() });
    assert_eq!(w.payload.as_str(), "CQk=");
    assert_eq!(w.encoding, "text/plain");
}

#[test]
fn reply_takes_the_arm_of_its_result() {
    let id = Uuid { value: 7 };
    let ok = ReplyWS::from(Reply { result: Ok(demo_sample()) }, id);
    assert_eq!(ok.query_uuid, id);
    assert_eq!(ok.result.unwrap().value.as_str(), "AQID");
    let err = ReplyWS::from(
        Reply { result: Err(ReplyError { payload: vec![], encoding: "zenoh/bytes".to_string() }) },
        id,
    );
    assert_eq!(err.query_uuid, id);
    let e = err.result.err().unwrap();
    assert_eq!(e.payload.as_str(), "");
    assert_eq!(e.encoding, "zenoh/bytes");
}

#[test]
fn sample_kind_maps_one_to_one() {
    assert_eq!(SampleKindWS::from(SampleKind::Put), SampleKindWS::Put);
    assert_eq!(SampleKindWS::from(SampleKind::Delete), SampleKindWS::Delete);
}

#[test]
fn reply_shapes_are_exclusive() {
    let payload = || B64String::from("AQID".to_string());
    let r = QueryReplyVariant::from_shapes((Some((key("a/b"), payload())), None, None)).unwrap();
    assert!(matches!(r, QueryReplyVariant::Reply { .. }));
    let r = QueryReplyVariant::from_shapes((None, Some(payload()), None)).unwrap();
    assert!(matches!(r, QueryReplyVariant::ReplyErr { .. }));
    let r = QueryReplyVariant::from_shapes((None, None, Some(key("a/b")))).unwrap();
    let (a, b, c) = r.into_shapes();
    assert!(a.is_none() && b.is_none() && c.unwrap().as_str() == "a/b");
    assert_eq!(
        QueryReplyVariant::from_shapes((None, None, None)).err(),
        Some(WireError::AmbiguousReplyShape)
    );
    assert_eq!(
        QueryReplyVariant::from_shapes((None, Some(payload()), Some(key("a/b")))).err(),
        Some(WireError::AmbiguousReplyShape)
    );
}
