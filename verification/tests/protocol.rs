use gtty::capability;
use gtty::{
    decode_frame, encode_frame, ipc_v0, negotiate, CapabilitySet, ErrorCode, FrameError,
    ProtocolVersion, MAX_FRAME_BYTES,
};

fn capability_set(names: &[&str]) -> CapabilitySet {
    let mut set = CapabilitySet::new();
    for name in names {
        set.insert(name.to_string());
    }
    set
}

#[test]
fn incompatible_major_version_is_rejected() {
    let client_capabilities = CapabilitySet::new();
    let daemon_capabilities = CapabilitySet::new();
    let result = negotiate(
        ProtocolVersion::new(1, 0),
        &client_capabilities,
        ipc_v0(),
        &daemon_capabilities,
    );

    let error = result.expect_err("major version mismatch must fail");
    assert_eq!(error.code, ErrorCode::IncompatibleVersion);
    assert!(!error.retryable);
}

#[test]
fn frame_round_trip() {
    let mut object = serde_json::Map::new();
    object.insert(
        "text".to_string(),
        serde_json::Value::String("hello\nworld".to_string()),
    );
    let value = serde_json::Value::Object(object);
    let encoded =
        encode_frame(serde_json::to_vec(&value).unwrap()).expect("message must encode");
    assert_eq!(encoded.last(), Some(&b'\n'));
    let payload = decode_frame(&encoded).unwrap();
    let decoded: serde_json::Value = serde_json::from_slice(&payload).unwrap();
    assert_eq!(decoded, value);
}

#[test]
fn oversized_frame_is_rejected_before_json_parsing() {
    let frame = vec![b'x'; MAX_FRAME_BYTES + 1];
    assert!(matches!(
        decode_frame(&frame),
        Err(FrameError::TooLarge { .. })
    ));
}

#[test]
fn incompatible_version_message_names_both_versions() {
    let none = CapabilitySet::new();
    let error = negotiate(ProtocolVersion::new(12, 3), &none, ProtocolVersion::new(0, 45), &none)
        .expect_err("major version mismatch must fail");
    assert_eq!(
        error.message,
        "client protocol 12.3 is incompatible with daemon protocol 0.45"
    );
}

#[test]
fn negotiation_takes_smaller_minor_and_shared_capabilities() {
    let client = capability_set(&[capability::STATE_SNAPSHOT, "future.capability"]);
    let daemon = capability_set(&[capability::CONNECTION_RESUME, capability::STATE_SNAPSHOT]);
    let negotiated = negotiate(ProtocolVersion::new(0, 7), &client, ipc_v0(), &daemon)
        .expect("same major must negotiate");
    assert_eq!(negotiated.version, ProtocolVersion::new(0, 1));
    assert_eq!(negotiated.capabilities.len(), 1);
    assert!(negotiated.capabilities.contains(capability::STATE_SNAPSHOT));
    assert!(!negotiated.capabilities.contains("future.capability"));

    let lower = negotiate(ProtocolVersion::new(3, 0), &client, ProtocolVersion::new(3, 9), &daemon)
        .expect("same major must negotiate");
    assert_eq!(lower.version, ProtocolVersion::new(3, 0));
}

#[test]
fn negotiation_is_symmetric() {
    let a = capability_set(&["x", "y", "z"]);
    let b = capability_set(&["z", "w", "x"]);
    let one = negotiate(ProtocolVersion::new(2, 5), &a, ProtocolVersion::new(2, 4), &b).unwrap();
    let other = negotiate(ProtocolVersion::new(2, 4), &b, ProtocolVersion::new(2, 5), &a).unwrap();
    assert_eq!(one, other);
    assert_eq!(one.capabilities, capability_set(&["x", "z"]));
}

#[test]
fn renegotiation_is_stable() {
    let client = capability_set(&["a", "b", "c"]);
    let daemon = capability_set(&["b", "c", "d"]);
    let first = negotiate(ProtocolVersion::new(0, 9), &client, ipc_v0(), &daemon).unwrap();
    let second = negotiate(first.version, &first.capabilities, ipc_v0(), &daemon).unwrap();
    assert_eq!(first, second);
}

#[test]
fn capability_set_behaves_as_a_set() {
    let mut set = CapabilitySet::new();
    assert!(set.is_empty());
    assert!(set.insert("b".to_string()));
    assert!(set.insert("a".to_string()));
    assert!(!set.insert("b".to_string()));
    assert_eq!(set.len(), 2);
    assert!(set.contains("a"));
    assert!(!set.contains("c"));
    assert_eq!(set, capability_set(&["a", "b"]));
    assert_ne!(set, capability_set(&["a"]));
    assert_ne!(set, capability_set(&["a", "c"]));
    assert!(capability_set(&["a"]).is_subset(&set));
    assert!(!set.is_subset(&capability_set(&["a"])));
    assert_eq!(set.clone(), set);
    assert_eq!(set.names(), &vec!["a".to_string(), "b".to_string()]);
    let common = set.intersection(&capability_set(&["c", "a"]));
    assert_eq!(common.names(), &vec!["a".to_string()]);
}

#[test]
fn decode_strips_one_newline_and_one_carriage_return() {
    assert_eq!(decode_frame(b"{}\r\n").unwrap(), b"{}".to_vec());
    assert_eq!(decode_frame(b"{}\n").unwrap(), b"{}".to_vec());
    assert_eq!(decode_frame(b"{}").unwrap(), b"{}".to_vec());
    assert_eq!(decode_frame(b"{}\r").unwrap(), b"{}".to_vec());
    assert_eq!(decode_frame(b"{}\n\n").unwrap(), b"{}\n".to_vec());
    assert_eq!(decode_frame(b"{}\n\r").unwrap(), b"{}\n".to_vec());
}

#[test]
fn empty_frames_are_rejected() {
    assert!(matches!(decode_frame(b""), Err(FrameError::Empty)));
    assert!(matches!(decode_frame(b"\n"), Err(FrameError::Empty)));
    assert!(matches!(decode_frame(b"\r\n"), Err(FrameError::Empty)));
    assert!(matches!(decode_frame(b"\r"), Err(FrameError::Empty)));
}

#[test]
fn frame_size_limit_is_exact() {
    let mut largest = vec![b'1'; MAX_FRAME_BYTES];
    largest.push(b'\r');
    largest.push(b'\n');
    assert_eq!(decode_frame(&largest).unwrap().len(), MAX_FRAME_BYTES);

    let too_large = vec![b'1'; MAX_FRAME_BYTES + 1];
    match decode_frame(&too_large) {
        Err(FrameError::TooLarge { actual, maximum }) => {
            assert_eq!(actual, MAX_FRAME_BYTES + 1);
            assert_eq!(maximum, MAX_FRAME_BYTES);
        }
        other => panic!("expected a size error, got {other:?}"),
    }

    let fits = encode_frame(vec![b'1'; MAX_FRAME_BYTES]).unwrap();
    assert_eq!(fits.len(), MAX_FRAME_BYTES + 1);
    match encode_frame(vec![b'1'; MAX_FRAME_BYTES + 1]) {
        Err(FrameError::TooLarge { actual, maximum }) => {
            assert_eq!(actual, MAX_FRAME_BYTES + 1);
            assert_eq!(maximum, MAX_FRAME_BYTES);
        }
        other => panic!("expected a size error, got {other:?}"),
    }
}

#[test]
fn encode_appends_exactly_one_newline() {
    assert_eq!(encode_frame(b"[1]".to_vec()).unwrap(), b"[1]\n".to_vec());
    assert_eq!(encode_frame(Vec::new()).unwrap(), b"\n".to_vec());
}

#[test]
fn frame_error_messages() {
    assert_eq!(FrameError::Empty.message(), "IPC frame is empty");
    assert_eq!(
        FrameError::TooLarge { actual: 1048577, maximum: 1048576 }.message(),
        "IPC frame is 1048577 bytes; maximum is 1048576"
    );
    let json_error = serde_json::from_slice::<serde_json::Value>(b"{").unwrap_err();
    let detail = json_error.to_string();
    let error = FrameError::Json(json_error);
    assert_eq!(error.message(), format!("invalid IPC JSON: {detail}"));
    assert_eq!(error.source().map(|e| e.to_string()), Some(detail));
    assert!(FrameError::Empty.source().is_none());
    assert_eq!(
        gtty::frame::json_error_description("trailing characters"),
        "invalid IPC JSON: trailing characters"
    );
}

#[test]
fn decimal_notation() {
    assert_eq!(gtty::text::with_decimal("n=", 0), "n=0");
    assert_eq!(gtty::text::with_decimal("", 1234567890), "1234567890");
    assert_eq!(gtty::text::with_decimal("max ", u64::MAX), "max 18446744073709551615");
}

#[test]
fn capability_names_are_kept_in_name_order() {
    let set = capability_set(&["state.snapshot", "event.diagnostic", "connection.resume", "b", "a", "ab", "\u{e9}", "z"]);
    let names: Vec<&str> = set.names().iter().map(String::as_str).collect();
    assert_eq!(
        names,
        vec!["a", "ab", "b", "connection.resume", "event.diagnostic", "state.snapshot", "z", "\u{e9}"]
    );
    let common = set.intersection(&capability_set(&["z", "a", "state.snapshot"]));
    let names: Vec<&str> = common.names().iter().map(String::as_str).collect();
    assert_eq!(names, vec!["a", "state.snapshot", "z"]);
    let sorted: std::collections::BTreeSet<String> = set.names().iter().cloned().collect();
    assert_eq!(sorted.into_iter().collect::<Vec<_>>(), *set.names());
}

#[test]
fn name_order_is_byte_order() {
    assert!(gtty::name_order::name_precedes("a", "b"));
    assert!(gtty::name_order::name_precedes("a", "ab"));
    assert!(!gtty::name_order::name_precedes("ab", "a"));
    assert!(!gtty::name_order::name_precedes("a", "a"));
    assert!(gtty::name_order::name_precedes("", "a"));
    assert!(gtty::name_order::name_precedes("Z", "a"));
    assert!(gtty::name_order::name_precedes("z", "\u{e9}"));
    assert!(gtty::name_order::name_precedes("\u{ffff}", "\u{10000}"));
}

#[test]
fn trailing_newline_is_optional() {
    assert_eq!(decode_frame(b"[1,2]").unwrap(), decode_frame(b"[1,2]\n").unwrap());
}
