use zenoh_remote_api::b64::B64String;
use zenoh_remote_api::error::WireError;

#[test]
fn test_b64_serializing() {
    let bytes: Vec<u8> = std::iter::repeat(245).take(100).collect();
    let b64_string = B64String::encode(&bytes);
    let json_bytes = serde_json::to_string(&bytes).unwrap();
    let json_b64 = serde_json::to_string(b64_string.as_str()).unwrap();
    assert!(json_b64.len() < json_bytes.len())
}

#[test]
fn encodes_standard_base64() {
    assert_eq!(B64String::encode(&[1, 2, 3]).as_str(), "AQID");
    assert_eq!(B64String::encode(&[0xff, 0xfe]).as_str(), "//4=");
    assert_eq!(B64String::encode(&[]).as_str(), "");
}

#[test]
fn bytes_round_trip() {
    let cases: Vec<Vec<u8>> = vec![
        vec![],
        vec![0],
        vec![0xff, 0xfe, 0x80, 0x00, 0xc3],
        (0u8..=255).collect(),
        std::iter::repeat(245).take(100).collect(),
    ];
    for b in cases {
        assert_eq!(B64String::encode(&b).b64_to_bytes(), Ok(b));
    }
}

#[test]
fn malformed_text_is_rejected() {
    for t in ["AQI", "A===", "@@@@", "AQID\n", "AQJ="] {
        assert_eq!(
            B64String::from(t.to_string()).b64_to_bytes(),
            Err(WireError::MalformedBinaryPayload)
        );
    }
    assert_eq!(B64String::from("AQID".to_string()).b64_to_bytes(), Ok(vec![1, 2, 3]));
}
