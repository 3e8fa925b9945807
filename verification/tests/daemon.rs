use gtty::{capability, method};
use gtty::{
    daemon_peer, daemon_ready_event, ipc_v0, receive_line, success_response, CapabilitySet,
    ClientEnvelope, Daemon, DaemonSnapshot, ErrorCode, EventPayload, FrameError, Inbound,
    Outbound, Peer, ProtocolVersion, ServerEnvelope, Session, DAEMON_NAME, DAEMON_VERSION,
    MAX_FRAME_BYTES, RESUME_RESULT,
};

fn handshake(request_id: &str, protocol: ProtocolVersion, names: &[&str]) -> Inbound {
    let mut capabilities = CapabilitySet::new();
    for name in names {
        capabilities.insert(name.to_string());
    }
    Inbound::Message(ClientEnvelope::Handshake {
        request_id: request_id.to_string(),
        protocol,
        client: Peer {
            name: "gtty-test-client".to_string(),
            version: "0.1.0".to_string(),
        },
        capabilities,
    })
}

fn request(request_id: &str, method: &str) -> Inbound {
    Inbound::Message(ClientEnvelope::Request {
        request_id: request_id.to_string(),
        task_id: None,
        session_id: None,
        method: method.to_string(),
        params: "null".to_string(),
        timeout_ms: Some(1_000),
    })
}

fn expect_error(outbound: Outbound, request_id: &str, code: ErrorCode, message: &str) {
    match outbound {
        Outbound::Message(ServerEnvelope::Response {
            request_id: id,
            ok,
            result,
            error: Some(error),
        }) => {
            assert_eq!(id, request_id);
            assert!(!ok);
            assert!(result.is_none());
            assert_eq!(error.code, code);
            assert_eq!(error.message, message);
            assert!(!error.retryable);
        }
        other => panic!("expected an error response, got {other:?}"),
    }
}

#[test]
fn default_daemon_offers_its_capabilities() {
    let daemon = Daemon::default();
    let offered = daemon.capabilities();
    assert_eq!(offered.len(), 4);
    for name in [
        capability::STATE_SNAPSHOT,
        capability::CONNECTION_RESUME,
        capability::TASK_STATE_EVENT,
        capability::DIAGNOSTIC_EVENT,
    ] {
        assert!(offered.contains(name));
    }
}

#[test]
fn snapshot_reports_protocol_and_no_tasks() {
    let snapshot = Daemon::default().snapshot();
    assert_eq!(snapshot.protocol, ipc_v0());
    assert!(snapshot.tasks.is_empty());

    assert_eq!(DaemonSnapshot::at_uptime(1234).uptime_ms, 1234);
    assert_eq!(DaemonSnapshot::at_uptime(u128::MAX).uptime_ms, u64::MAX);
    assert_eq!(
        DaemonSnapshot::at_uptime(u64::MAX as u128 + 1).uptime_ms,
        u64::MAX
    );
}

#[test]
fn request_before_handshake_is_refused() {
    let daemon = Daemon::default();
    let mut session = Session::new();
    let reply = daemon.handle(&mut session, request("req-1", method::STATE_SNAPSHOT));
    assert!(!reply.close);
    assert!(!reply.announce_ready);
    assert!(!session.handshaken());
    expect_error(
        reply.outbound,
        "req-1",
        ErrorCode::NotHandshaken,
        "handshake must complete before requests",
    );
}

#[test]
fn client_handshakes_then_resumes_and_requests_snapshot() {
    let daemon = Daemon::default();
    let mut session = Session::new();

    let reply = daemon.handle(
        &mut session,
        handshake(
            "req-handshake",
            ipc_v0(),
            &[capability::STATE_SNAPSHOT, "future.capability"],
        ),
    );
    assert!(session.handshaken());
    assert!(reply.announce_ready);
    assert!(!reply.close);
    match reply.outbound {
        Outbound::Message(ServerEnvelope::Handshake {
            request_id,
            accepted,
            protocol,
            daemon: peer,
            capabilities,
            error,
        }) => {
            assert_eq!(request_id, "req-handshake");
            assert!(accepted);
            assert_eq!(protocol, ipc_v0());
            assert_eq!(peer, daemon_peer());
            assert!(error.is_none());
            assert!(capabilities.contains(capability::STATE_SNAPSHOT));
            assert!(!capabilities.contains("future.capability"));
        }
        other => panic!("expected handshake response, got {other:?}"),
    }

    let reply = daemon.handle(&mut session, request("req-resume", method::CONNECTION_RESUME));
    assert!(!reply.close);
    match reply.outbound {
        Outbound::Message(ServerEnvelope::Response {
            request_id,
            ok,
            result: Some(result),
            error,
        }) => {
            assert_eq!(request_id, "req-resume");
            assert!(ok);
            assert!(error.is_none());
            let value: serde_json::Value = serde_json::from_str(&result).unwrap();
            assert_eq!(value["resumed"], false);
            assert_eq!(value["requires_snapshot"], true);
        }
        other => panic!("expected resume response, got {other:?}"),
    }

    let reply = daemon.handle(&mut session, request("req-snapshot", method::STATE_SNAPSHOT));
    match reply.outbound {
        Outbound::Snapshot { request_id } => assert_eq!(request_id, "req-snapshot"),
        other => panic!("expected a snapshot, got {other:?}"),
    }
}

#[test]
fn second_handshake_is_refused() {
    let daemon = Daemon::default();
    let mut session = Session::new();
    daemon.handle(&mut session, handshake("one", ipc_v0(), &[]));
    let reply = daemon.handle(&mut session, handshake("two", ipc_v0(), &[]));
    assert!(session.handshaken());
    assert!(!reply.close);
    assert!(!reply.announce_ready);
    expect_error(
        reply.outbound,
        "two",
        ErrorCode::InvalidRequest,
        "connection is already handshaken",
    );
}

#[test]
fn incompatible_handshake_is_refused_and_closes() {
    let daemon = Daemon::default();
    let mut session = Session::new();
    let reply = daemon.handle(
        &mut session,
        handshake("req", ProtocolVersion::new(1, 0), &[capability::STATE_SNAPSHOT]),
    );
    assert!(reply.close);
    assert!(!reply.announce_ready);
    assert!(!session.handshaken());
    match reply.outbound {
        Outbound::Message(ServerEnvelope::Handshake {
            request_id,
            accepted,
            protocol,
            daemon: peer,
            capabilities,
            error: Some(error),
        }) => {
            assert_eq!(request_id, "req");
            assert!(!accepted);
            assert_eq!(protocol, ipc_v0());
            assert_eq!(peer.name, DAEMON_NAME);
            assert_eq!(peer.version, DAEMON_VERSION);
            assert!(capabilities.is_empty());
            assert_eq!(error.code, ErrorCode::IncompatibleVersion);
            assert_eq!(
                error.message,
                "client protocol 1.0 is incompatible with daemon protocol 0.1"
            );
        }
        other => panic!("expected handshake refusal, got {other:?}"),
    }
}

#[test]
fn unknown_method_is_refused() {
    let daemon = Daemon::default();
    let mut session = Session::new();
    daemon.handle(&mut session, handshake("h", ipc_v0(), &[]));
    let reply = daemon.handle(&mut session, request("r", "task.launch"));
    assert!(!reply.close);
    expect_error(
        reply.outbound,
        "r",
        ErrorCode::InvalidRequest,
        "unknown method: task.launch",
    );
}

#[test]
fn oversized_line_is_refused_and_closes() {
    let line = vec![b'x'; MAX_FRAME_BYTES + 2];
    let inbound = receive_line(&line).expect_err("an oversized line carries no message");
    assert!(matches!(inbound, Inbound::Oversized));
    let daemon = Daemon::default();
    let mut session = Session::new();
    let reply = daemon.handle(&mut session, inbound);
    assert!(reply.close);
    expect_error(
        reply.outbound,
        "unknown",
        ErrorCode::InvalidRequest,
        "IPC frame exceeds the 1 MiB limit",
    );
}

#[test]
fn undecodable_frame_is_reported() {
    let inbound = receive_line(b"\r\n").expect_err("an empty frame carries no message");
    assert!(matches!(inbound, Inbound::Undecodable(FrameError::Empty)));
    let daemon = Daemon::default();
    let mut session = Session::new();
    let reply = daemon.handle(&mut session, inbound);
    assert!(!reply.close);
    expect_error(
        reply.outbound,
        "unknown",
        ErrorCode::InvalidRequest,
        "IPC frame is empty",
    );

    let mut longest = vec![b'x'; MAX_FRAME_BYTES + 1];
    assert!(matches!(
        receive_line(&longest),
        Err(Inbound::Undecodable(FrameError::TooLarge { .. }))
    ));
    longest.pop();
    longest.push(b'\n');
    assert_eq!(receive_line(&longest).unwrap().len(), MAX_FRAME_BYTES);
}

#[test]
fn ready_event_is_numbered() {
    match daemon_ready_event(42, 7) {
        ServerEnvelope::Event {
            event_id,
            task_id,
            session_id,
            event,
        } => {
            assert_eq!(event_id, "evt-42");
            assert!(task_id.is_none());
            assert!(session_id.is_none());
            assert_eq!(event, EventPayload::DaemonReady { pid: 7 });
        }
        other => panic!("expected an event, got {other:?}"),
    }
}

#[test]
fn success_response_carries_result() {
    match success_response("id".to_string(), RESUME_RESULT.to_string()) {
        ServerEnvelope::Response {
            request_id,
            ok,
            result,
            error,
        } => {
            assert_eq!(request_id, "id");
            assert!(ok);
            assert_eq!(result.as_deref(), Some(RESUME_RESULT));
            assert!(error.is_none());
        }
        other => panic!("expected a response, got {other:?}"),
    }
}

#[test]
fn socket_location_follows_precedence() {
    let names = |l: &gtty::SocketLocation| l.components.iter().map(String::as_str).collect::<Vec<_>>().join("/");

    let l = gtty::socket_location(Some(b"/run/g".to_vec()), Some(b"/run/x".to_vec()), Some(b"/home/u".to_vec()), false).unwrap();
    assert_eq!(l.base, b"/run/g".to_vec());
    assert_eq!(names(&l), "gttyd.sock");

    let l = gtty::socket_location(None, Some(b"/run/x".to_vec()), Some(b"/home/u".to_vec()), true).unwrap();
    assert_eq!(l.base, b"/run/x".to_vec());
    assert_eq!(names(&l), "gtty/gttyd.sock");

    let l = gtty::socket_location(None, None, Some(b"/home/u".to_vec()), false).unwrap();
    assert_eq!(l.base, b"/home/u".to_vec());
    assert_eq!(names(&l), ".cache/gtty/gttyd.sock");

    let l = gtty::socket_location(None, None, Some(b"/Users/u".to_vec()), true).unwrap();
    assert_eq!(names(&l), "Library/Caches/com.gtty.terminal/gttyd.sock");

    assert!(gtty::socket_location(None, None, None, false).is_none());
}

#[test]
fn a_connection_is_served_only_after_its_handshake() {
    let daemon = Daemon::default();
    let mut session = Session::new();
    let mut replies = Vec::new();
    for inbound in [
        request("a", method::CONNECTION_RESUME),
        handshake("h1", ipc_v0(), &[]),
        handshake("h2", ipc_v0(), &[]),
        request("b", method::CONNECTION_RESUME),
    ] {
        replies.push(daemon.handle(&mut session, inbound));
    }
    let accepted: Vec<usize> = replies
        .iter()
        .enumerate()
        .filter(|(_, r)| matches!(&r.outbound, Outbound::Message(ServerEnvelope::Handshake { accepted: true, .. })))
        .map(|(i, _)| i)
        .collect();
    assert_eq!(accepted, vec![1]);
    assert!(matches!(&replies[0].outbound, Outbound::Message(ServerEnvelope::Response { ok: false, .. })));
    assert!(matches!(&replies[3].outbound, Outbound::Message(ServerEnvelope::Response { ok: true, .. })));
}
