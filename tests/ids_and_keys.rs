use zenoh_remote_api::error::WireError;
use zenoh_remote_api::id::Uuid;
use zenoh_remote_api::key_expr::OwnedKeyExprWrapper;

#[test]
fn uuid_text_round_trip() {
    let text = "a2663bb1-128c-4dd3-a42b-d1d3337e2e51";
    let id = Uuid::parse(text).unwrap();
    assert_eq!(id.value, 0xa2663bb1_128c_4dd3_a42b_d1d3337e2e51u128);
    assert_eq!(id.to_text(), text);
    assert_eq!(Uuid::parse("not an id"), Err(WireError::MalformedId));
}

#[test]
fn key_expressions_are_checked() {
    let k = OwnedKeyExprWrapper::new("demo/test".to_string()).unwrap();
    assert_eq!(k.as_str(), "demo/test");
    assert!(OwnedKeyExprWrapper::new("demo/*/x".to_string()).is_ok());
    for bad in ["", "demo/", "demo//test", "de*mo"] {
        assert_eq!(
            OwnedKeyExprWrapper::new(bad.to_string()).err(),
            Some(WireError::MalformedKeyExpr)
        );
    }
}
