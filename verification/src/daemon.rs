use vstd::prelude::*;

use std::time::{Duration, Instant};

use crate::capability;
use crate::capability_set::CapabilitySet;
use crate::frame::{decode_frame, describes_frame_error, FrameError, MAX_FRAME_BYTES};
use crate::method;
use crate::model::{
    ipc_v0, spec_ipc_v0, DaemonSnapshot, ErrorCode, EventPayload, IpcError, Peer, ServerEnvelope,
    ClientEnvelope,
};
use crate::negotiate::{is_incompatibility_error, negotiate, spec_negotiate};
use crate::text::{decimal, with_decimal};

verus! {

pub const DAEMON_NAME: &'static str = "gttyd";

pub const DAEMON_VERSION: &'static str = "0.1.0";

/// How many bytes of one line the daemon reads at most: a frame of the
/// maximal size, its optional carriage return, and its newline.
pub const READ_LIMIT: usize = MAX_FRAME_BYTES + 2;

/// The result of a `connection.resume` request, as JSON text: this daemon
/// cannot resume, so the client must ask for a snapshot.
pub const RESUME_RESULT: &'static str = "{\"resumed\":false,\"requires_snapshot\":true}";

#[verifier::external_type_specification]
#[verifier::external_body]
pub struct ExInstant(Instant);

/// The current instant.
/// Calls `std::time::Instant::now`; nothing is promised of the value.
#[verifier::external_body]
fn instant_now() -> Instant {
    Instant::now()
}

/// The time passed since `start`.
/// Calls `std::time::Instant::elapsed`; it depends on the clock, so nothing is
/// promised of it.
#[verifier::external_body]
fn elapsed_since(start: &Instant) -> Duration {
    start.elapsed()
}

/// The whole milliseconds in `duration`.
/// Calls `std::time::Duration::as_millis`; nothing is promised of the value.
#[verifier::external_body]
fn whole_millis(duration: &Duration) -> u128 {
    duration.as_millis()
}

/// The capabilities that a daemon offers.
pub open spec fn default_capabilities() -> Set<Seq<char>> {
    set![
        capability::STATE_SNAPSHOT@,
        capability::CONNECTION_RESUME@,
        capability::TASK_STATE_EVENT@,
        capability::DIAGNOSTIC_EVENT@,
    ]
}

/// Whether `peer` names this daemon.
pub open spec fn is_daemon_peer(peer: Peer) -> bool {
    &&& peer.name@ == DAEMON_NAME@
    &&& peer.version@ == DAEMON_VERSION@
}

/// How this daemon names itself to its clients.
pub fn daemon_peer() -> (peer: Peer)
    ensures
        is_daemon_peer(peer),
{
    Peer { name: String::from_str(DAEMON_NAME), version: String::from_str(DAEMON_VERSION) }
}

/// Whether `m` is a successful response to `request_id` with `result`.
pub open spec fn is_success_response(m: ServerEnvelope, request_id: Seq<char>, result: Seq<char>) -> bool {
    match m {
        ServerEnvelope::Response { request_id: r, ok, result: res, error } => {
            &&& r@ == request_id
            &&& ok
            &&& res matches Some(text) && text@ == result
            &&& error is None
        },
        _ => false,
    }
}

/// Whether `m` is a failed response to `request_id` that reports a
/// non-retryable error with `code` and a message for which `message` holds.
pub open spec fn is_failure_response(
    m: ServerEnvelope,
    request_id: Seq<char>,
    code: ErrorCode,
    message: spec_fn(Seq<char>) -> bool,
) -> bool {
    match m {
        ServerEnvelope::Response { request_id: r, ok, result, error } => {
            &&& r@ == request_id
            &&& !ok
            &&& result is None
            &&& error matches Some(e) && e.code == code && message(e.message@) && !e.retryable
        },
        _ => false,
    }
}

/// Whether `m` is a failed response to `request_id` that reports a
/// non-retryable error with `code` and exactly `message`.
pub open spec fn is_error_response(
    m: ServerEnvelope,
    request_id: Seq<char>,
    code: ErrorCode,
    message: Seq<char>,
) -> bool {
    is_failure_response(m, request_id, code, |text: Seq<char>| text == message)
}

/// A successful response to `request_id` that carries the JSON text `result`.
pub fn success_response(request_id: String, result: String) -> (m: ServerEnvelope)
    ensures
        is_success_response(m, request_id@, result@),
{
    ServerEnvelope::Response { request_id, ok: true, result: Some(result), error: None }
}

/// A failed response to `request_id` that reports `code` and `message`.
pub fn error_response(request_id: String, code: ErrorCode, message: String, retryable: bool) -> (m:
    ServerEnvelope)
    ensures
        match m {
            ServerEnvelope::Response { request_id: r, ok, result, error } => {
                &&& r@ == request_id@
                &&& !ok
                &&& result is None
                &&& error matches Some(e) && e.code == code && e.message@ == message@
                    && e.retryable == retryable
            },
            _ => false,
        },
{
    ServerEnvelope::Response {
        request_id,
        ok: false,
        result: None,
        error: Some(IpcError::new(code, message, retryable)),
    }
}

/// The event that announces a ready daemon, numbered `event_id`, from the
/// process `pid`.
pub fn daemon_ready_event(event_id: u64, pid: u32) -> (m: ServerEnvelope)
    ensures
        m matches ServerEnvelope::Event { event_id: id, task_id, session_id, event } && id@
            == "evt-"@ + decimal(event_id as nat) && task_id is None && session_id is None
            && event == (EventPayload::DaemonReady { pid }),
{
    ServerEnvelope::Event {
        event_id: with_decimal("evt-", event_id),
        task_id: None,
        session_id: None,
        event: EventPayload::DaemonReady { pid },
    }
}

/// The uptime reported for `uptime_millis` milliseconds: the number itself,
/// or `u64::MAX` when it does not fit.
pub open spec fn reported_uptime(uptime_millis: u128) -> u64 {
    if uptime_millis <= u64::MAX {
        uptime_millis as u64
    } else {
        u64::MAX
    }
}

/// A longer uptime is never reported as a shorter one.
pub proof fn lemma_reported_uptime_monotone(earlier: u128, later: u128)
    requires
        earlier <= later,
    ensures
        reported_uptime(earlier) <= reported_uptime(later),
{
}

impl DaemonSnapshot {
    /// The snapshot of a daemon without tasks that has been up for
    /// `uptime_millis` milliseconds; an uptime beyond `u64::MAX` is reported
    /// as `u64::MAX`.
    pub fn at_uptime(uptime_millis: u128) -> (s: DaemonSnapshot)
        ensures
            s.protocol == spec_ipc_v0(),
            s.uptime_ms == reported_uptime(uptime_millis),
            s.tasks@.len() == 0,
    {
        let uptime_ms = if uptime_millis <= u64::MAX as u128 {
            uptime_millis as u64
        } else {
            u64::MAX
        };
        DaemonSnapshot { protocol: ipc_v0(), uptime_ms, tasks: Vec::new() }
    }
}

/// The local daemon: when it started, and the capabilities it offers.
#[derive(Debug)]
pub struct Daemon {
    started_at: Instant,
    capabilities: CapabilitySet,
}

impl Daemon {
    /// The capabilities this daemon offers.
    pub closed spec fn offered(&self) -> Set<Seq<char>> {
        self.capabilities@
    }

    /// The capabilities this daemon offers.
    pub fn capabilities(&self) -> (c: &CapabilitySet)
        ensures
            c@ == self.offered(),
    {
        &self.capabilities
    }

    /// The daemon's state: the protocol it speaks, how long it has been up
    /// (read from the clock), and its tasks, of which there are none.
    pub fn snapshot(&self) -> (s: DaemonSnapshot)
        ensures
            s.protocol == spec_ipc_v0(),
            s.tasks@.len() == 0,
    {
        let elapsed = elapsed_since(&self.started_at);
        DaemonSnapshot::at_uptime(whole_millis(&elapsed))
    }
}

impl Default for Daemon {
    fn default() -> (d: Self)
        ensures
            d.offered() == default_capabilities(),
    {
        let mut capabilities = CapabilitySet::new();
        capabilities.insert(String::from_str(capability::STATE_SNAPSHOT));
        capabilities.insert(String::from_str(capability::CONNECTION_RESUME));
        capabilities.insert(String::from_str(capability::TASK_STATE_EVENT));
        capabilities.insert(String::from_str(capability::DIAGNOSTIC_EVENT));
        proof {
            assert(capabilities@ =~= default_capabilities());
        }
        Daemon { started_at: instant_now(), capabilities }
    }
}

/// What the daemon received on one line of a connection.
#[derive(Debug)]
pub enum Inbound {
    /// A line longer than a frame may be.
    Oversized,
    /// A frame that does not carry a client message.
    Undecodable(FrameError),
    /// A client message.
    Message(ClientEnvelope),
}

/// What the daemon sends in reply.
#[derive(Debug)]
pub enum Outbound {
    /// This message.
    Message(ServerEnvelope),
    /// A successful response to `request_id` that carries a snapshot of the
    /// daemon, taken when it is sent.
    Snapshot { request_id: String },
}

/// The daemon's answer to one inbound line.
#[derive(Debug)]
pub struct Reply {
    /// What is sent first.
    pub outbound: Outbound,
    /// Whether the event that announces a ready daemon follows it.
    pub announce_ready: bool,
    /// Whether the connection ends after the reply.
    pub close: bool,
}

/// The state of one connection: whether its handshake has succeeded.
#[derive(Debug)]
pub struct Session {
    handshaken: bool,
}

impl Session {
    /// Whether the connection's handshake has succeeded.
    pub closed spec fn is_handshaken(&self) -> bool {
        self.handshaken
    }

    /// A fresh connection, not yet handshaken.
    pub fn new() -> (s: Session)
        ensures
            !s.is_handshaken(),
    {
        Session { handshaken: false }
    }

    /// Whether the connection's handshake has succeeded.
    pub fn handshaken(&self) -> (b: bool)
        ensures
            b == self.is_handshaken(),
    {
        self.handshaken
    }
}

/// Whether `line`, as read from a connection, is longer than a frame may be.
pub open spec fn is_oversized(line: Seq<u8>) -> bool {
    line.len() > MAX_FRAME_BYTES + 1
}

/// A line is oversized exactly when it has more bytes than a frame of 1 MiB
/// and its newline: a line of any greater length is oversized, a line of that
/// length or shorter is not.
pub proof fn lemma_oversized_lines(line: Seq<u8>)
    ensures
        is_oversized(line) <==> line.len() > 1024 * 1024 + 1,
{
}

/// Takes apart one line read from a connection: an oversized line and a frame
/// that cannot be decoded are reported as such; otherwise the JSON payload is
/// returned for parsing.
pub fn receive_line(line: &[u8]) -> (res: Result<Vec<u8>, Inbound>)
    ensures
        match res {
            Ok(payload) => !is_oversized(line@) && crate::frame::decoded(line@, Ok(payload)),
            Err(Inbound::Oversized) => is_oversized(line@),
            Err(Inbound::Undecodable(e)) => !is_oversized(line@) && crate::frame::decoded(
                line@,
                Err(e),
            ),
            Err(Inbound::Message(_)) => false,
        },
        line@.len() > MAX_FRAME_BYTES + 1 <==> res matches Err(Inbound::Oversized),
{
    if line.len() > MAX_FRAME_BYTES + 1 {
        return Err(Inbound::Oversized);
    }
    match decode_frame(line) {
        Ok(payload) => Ok(payload),
        Err(e) => Err(Inbound::Undecodable(e)),
    }
}

/// Whether `reply` answers `inbound` correctly, for a daemon that offers
/// `offered`, on a connection that was `handshaken` before and is
/// `handshaken_after` after.
pub open spec fn handled(
    offered: Set<Seq<char>>,
    handshaken: bool,
    inbound: Inbound,
    reply: Reply,
    handshaken_after: bool,
) -> bool {
    match inbound {
        Inbound::Oversized => {
            &&& handshaken_after == handshaken
            &&& reply.close
            &&& !reply.announce_ready
            &&& reply.outbound matches Outbound::Message(m) && is_error_response(
                m,
                "unknown"@,
                ErrorCode::InvalidRequest,
                "IPC frame exceeds the 1 MiB limit"@,
            )
        },
        Inbound::Undecodable(error) => {
            &&& handshaken_after == handshaken
            &&& !reply.close
            &&& !reply.announce_ready
            &&& reply.outbound matches Outbound::Message(m) && is_failure_response(
                m,
                "unknown"@,
                ErrorCode::InvalidRequest,
                |text: Seq<char>| describes_frame_error(error, text),
            )
        },
        Inbound::Message(ClientEnvelope::Handshake { request_id, protocol, capabilities, .. }) => {
            if handshaken {
                &&& handshaken_after
                &&& !reply.close
                &&& !reply.announce_ready
                &&& reply.outbound matches Outbound::Message(m) && is_error_response(
                    m,
                    request_id@,
                    ErrorCode::InvalidRequest,
                    "connection is already handshaken"@,
                )
            } else {
                match spec_negotiate(protocol, capabilities@, spec_ipc_v0(), offered) {
                    Some((version, common)) => {
                        &&& handshaken_after
                        &&& !reply.close
                        &&& reply.announce_ready
                        &&& reply.outbound matches Outbound::Message(
                            ServerEnvelope::Handshake {
                                request_id: r,
                                accepted,
                                protocol: p,
                                daemon,
                                capabilities: c,
                                error,
                            },
                        ) && r@ == request_id@ && accepted && p == version && is_daemon_peer(
                            daemon,
                        ) && c@ == common && error is None
                    },
                    None => {
                        &&& !handshaken_after
                        &&& reply.close
                        &&& !reply.announce_ready
                        &&& reply.outbound matches Outbound::Message(
                            ServerEnvelope::Handshake {
                                request_id: r,
                                accepted,
                                protocol: p,
                                daemon,
                                capabilities: c,
                                error,
                            },
                        ) && r@ == request_id@ && !accepted && p == spec_ipc_v0()
                            && is_daemon_peer(daemon) && c@ == Set::<Seq<char>>::empty()
                            && (error matches Some(e) && is_incompatibility_error(
                            e,
                            protocol,
                            spec_ipc_v0(),
                        ))
                    },
                }
            }
        },
        Inbound::Message(ClientEnvelope::Request { request_id, method, .. }) => {
            &&& handshaken_after == handshaken
            &&& !reply.close
            &&& !reply.announce_ready
            &&& if !handshaken {
                reply.outbound matches Outbound::Message(m) && is_error_response(
                    m,
                    request_id@,
                    ErrorCode::NotHandshaken,
                    "handshake must complete before requests"@,
                )
            } else if method@ == method::STATE_SNAPSHOT@ {
                reply.outbound matches Outbound::Snapshot { request_id: r } && r@ == request_id@
            } else if method@ == method::CONNECTION_RESUME@ {
                reply.outbound matches Outbound::Message(m) && is_success_response(
                    m,
                    request_id@,
                    RESUME_RESULT@,
                )
            } else {
                reply.outbound matches Outbound::Message(m) && is_error_response(
                    m,
                    request_id@,
                    ErrorCode::InvalidRequest,
                    "unknown method: "@ + method@,
                )
            }
        },
    }
}

/// The request id that `outbound` answers, if it answers one.
pub open spec fn answered_request(outbound: Outbound) -> Option<Seq<char>> {
    match outbound {
        Outbound::Snapshot { request_id } => Some(request_id@),
        Outbound::Message(ServerEnvelope::Response { request_id, .. }) => Some(request_id@),
        Outbound::Message(ServerEnvelope::Handshake { request_id, .. }) => Some(request_id@),
        Outbound::Message(ServerEnvelope::Event { .. }) => None,
    }
}

/// Once a connection's handshake has succeeded, it stays handshaken,
/// whatever arrives next.
pub proof fn lemma_handshake_is_permanent(
    offered: Set<Seq<char>>,
    inbound: Inbound,
    reply: Reply,
    handshaken_after: bool,
)
    requires
        handled(offered, true, inbound, reply, handshaken_after),
    ensures
        handshaken_after,
{
}

/// A connection becomes handshaken only by a handshake that the daemon
/// accepts; that reply is followed by the event announcing a ready daemon,
/// and the connection stays open.
pub proof fn lemma_handshaken_only_by_acceptance(
    offered: Set<Seq<char>>,
    inbound: Inbound,
    reply: Reply,
)
    requires
        handled(offered, false, inbound, reply, true),
    ensures
        inbound matches Inbound::Message(ClientEnvelope::Handshake { protocol, .. })
            && protocol.major == spec_ipc_v0().major,
        reply.outbound matches Outbound::Message(ServerEnvelope::Handshake { accepted, .. })
            && accepted,
        reply.announce_ready,
        !reply.close,
{
}

/// Every request and every handshake is answered under its own request id;
/// a request never ends the connection, and before a successful handshake it
/// is refused as not handshaken.
pub proof fn lemma_answers_carry_request_id(
    offered: Set<Seq<char>>,
    handshaken: bool,
    inbound: Inbound,
    reply: Reply,
    handshaken_after: bool,
)
    requires
        handled(offered, handshaken, inbound, reply, handshaken_after),
    ensures
        inbound matches Inbound::Message(ClientEnvelope::Request { request_id, .. }) ==> {
            &&& answered_request(reply.outbound) == Some(request_id@)
            &&& !reply.close
            &&& !handshaken ==> (reply.outbound matches Outbound::Message(m) && is_error_response(
                m,
                request_id@,
                ErrorCode::NotHandshaken,
                "handshake must complete before requests"@,
            ))
        },
        inbound matches Inbound::Message(ClientEnvelope::Handshake { request_id, .. })
            ==> answered_request(reply.outbound) == Some(request_id@),
{
}

/// An accepted handshake answers with protocol 0.1 or older: its major number
/// is 0, the client's own, and its minor number is the smaller of the
/// client's minor number and 1.
pub proof fn lemma_accepted_handshake_protocol(
    offered: Set<Seq<char>>,
    inbound: Inbound,
    reply: Reply,
    handshaken_after: bool,
)
    requires
        handled(offered, false, inbound, reply, handshaken_after),
        inbound is Message,
        inbound->Message_0 is Handshake,
        accepts_handshake(reply),
    ensures
        reply.outbound matches Outbound::Message(ServerEnvelope::Handshake { protocol, .. }) && {
            let client = inbound->Message_0->Handshake_protocol;
            &&& protocol.major == 0
            &&& client.major == 0
            &&& protocol.minor <= 1
            &&& protocol.minor <= client.minor
            &&& (protocol.minor == client.minor || protocol.minor == 1)
        },
{
}

/// A handshake is refused when the connection is already handshaken (the
/// connection stays open and handshaken), and when its major number is not 0
/// (the reply offers protocol 0.1, grants nothing, reports an incompatible
/// version, and ends the connection).
pub proof fn lemma_refused_handshakes(
    offered: Set<Seq<char>>,
    handshaken: bool,
    inbound: Inbound,
    reply: Reply,
    handshaken_after: bool,
)
    requires
        handled(offered, handshaken, inbound, reply, handshaken_after),
        inbound is Message,
        inbound->Message_0 is Handshake,
    ensures
        handshaken ==> {
            &&& handshaken_after
            &&& !reply.close
            &&& !reply.announce_ready
            &&& reply.outbound matches Outbound::Message(
                ServerEnvelope::Response { request_id: r, ok, error: Some(e), .. },
            ) && r@ == inbound->Message_0->Handshake_request_id@ && !ok && e.code
                == ErrorCode::InvalidRequest && e.message@ == "connection is already handshaken"@
        },
        !handshaken && inbound->Message_0->Handshake_protocol.major != 0 ==> {
            &&& !handshaken_after
            &&& reply.close
            &&& !reply.announce_ready
            &&& reply.outbound matches Outbound::Message(
                ServerEnvelope::Handshake { accepted, protocol, capabilities, error: Some(e), .. },
            ) && !accepted && protocol.major == 0 && protocol.minor == 1 && capabilities@
                == Set::<Seq<char>>::empty() && e.code == ErrorCode::IncompatibleVersion
                && !e.retryable
        },
{
}

/// On a handshaken connection a request is answered by its method alone,
/// whatever its parameters, task, session and timeout: `connection.resume`
/// by a successful response that says the daemon did not resume and wants a
/// snapshot, `state.snapshot` by a snapshot, and any other method by an
/// error naming it; each under the request's id, with the connection kept
/// open and handshaken.
pub proof fn lemma_handshaken_requests(
    offered: Set<Seq<char>>,
    inbound: Inbound,
    reply: Reply,
    handshaken_after: bool,
)
    requires
        handled(offered, true, inbound, reply, handshaken_after),
        inbound is Message,
        inbound->Message_0 is Request,
    ensures
        handshaken_after,
        !reply.close,
        !reply.announce_ready,
        ({
            let request_id = inbound->Message_0->Request_request_id@;
            let method = inbound->Message_0->Request_method@;
            &&& method == "connection.resume"@ ==> (reply.outbound matches Outbound::Message(
                ServerEnvelope::Response { request_id: r, ok, result: Some(text), error },
            ) && r@ == request_id && ok && error is None && text@
                == "{\"resumed\":false,\"requires_snapshot\":true}"@)
            &&& method == "state.snapshot"@ ==> (reply.outbound matches Outbound::Snapshot {
                request_id: r,
            } && r@ == request_id)
            &&& (method != "connection.resume"@ && method != "state.snapshot"@) ==> (
            reply.outbound matches Outbound::Message(
                ServerEnvelope::Response { request_id: r, ok, result, error: Some(e) },
            ) && r@ == request_id && !ok && result is None && e.code == ErrorCode::InvalidRequest
                && e.message@ == "unknown method: "@ + method)
        }),
{
    reveal_strlit("connection.resume");
    reveal_strlit("state.snapshot");
    reveal_strlit("{\"resumed\":false,\"requires_snapshot\":true}");
    assert(method::CONNECTION_RESUME@ == "connection.resume"@);
    assert(method::STATE_SNAPSHOT@ == "state.snapshot"@);
    assert(RESUME_RESULT@ == "{\"resumed\":false,\"requires_snapshot\":true}"@);
}

/// An accepted handshake grants only capabilities that the client asked for
/// and the daemon offers, and every such capability; capabilities that the
/// daemon does not know are left out.
pub proof fn lemma_granted_capabilities_are_shared(
    offered: Set<Seq<char>>,
    inbound: Inbound,
    reply: Reply,
    handshaken_after: bool,
)
    requires
        handled(offered, false, inbound, reply, handshaken_after),
        inbound is Message,
        inbound->Message_0 is Handshake,
        reply.outbound matches Outbound::Message(ServerEnvelope::Handshake { accepted, .. })
            && accepted,
    ensures
        reply.outbound matches Outbound::Message(ServerEnvelope::Handshake { capabilities, .. })
            && capabilities@ == inbound->Message_0->Handshake_capabilities@.intersect(offered),
        reply.outbound matches Outbound::Message(ServerEnvelope::Handshake { capabilities, .. })
            && capabilities@.subset_of(offered),
{
}

/// The daemon ends a connection only after an oversized line, or after
/// refusing a handshake for an incompatible protocol version.
pub proof fn lemma_close_only_on_refusal(
    offered: Set<Seq<char>>,
    handshaken: bool,
    inbound: Inbound,
    reply: Reply,
    handshaken_after: bool,
)
    requires
        handled(offered, handshaken, inbound, reply, handshaken_after),
        reply.close,
    ensures
        inbound is Oversized || (!handshaken && !handshaken_after && (inbound matches Inbound::Message(
            ClientEnvelope::Handshake { protocol, .. },
        ) && protocol.major != spec_ipc_v0().major)),
{
}

/// Whether `reply` accepts a handshake.
pub open spec fn accepts_handshake(reply: Reply) -> bool {
    reply.outbound matches Outbound::Message(ServerEnvelope::Handshake { accepted, .. }) && accepted
}

/// Whether `reply` refuses a handshake.
pub open spec fn refuses_handshake(reply: Reply) -> bool {
    reply.outbound matches Outbound::Message(ServerEnvelope::Handshake { accepted, .. }) && !accepted
}

/// Whether `reply` serves the client: it carries a successful response, a
/// snapshot or an event, or the event announcing a ready daemon follows it.
pub open spec fn serves(reply: Reply) -> bool {
    ||| reply.announce_ready
    ||| reply.outbound is Snapshot
    ||| (reply.outbound matches Outbound::Message(ServerEnvelope::Response { ok, .. }) && ok)
    ||| (reply.outbound matches Outbound::Message(ServerEnvelope::Event { .. }))
}

/// Whether `replies` are the daemon's answers to the lines `inbounds` of one
/// connection, from its start, where `states[i]` tells whether the connection
/// was handshaken before line `i`, and the connection ends at the first reply
/// that closes it.
pub open spec fn connection_trace(
    offered: Set<Seq<char>>,
    inbounds: Seq<Inbound>,
    replies: Seq<Reply>,
    states: Seq<bool>,
) -> bool {
    &&& replies.len() == inbounds.len()
    &&& states.len() == inbounds.len() + 1
    &&& !states[0]
    &&& forall|i: int|
        0 <= i < inbounds.len() ==> handled(
            offered,
            states[i],
            #[trigger] inbounds[i],
            replies[i],
            states[i + 1],
        )
    &&& forall|i: int| 0 <= i < replies.len() - 1 ==> !(#[trigger] replies[i]).close
}

/// What one step of a connection keeps: only an accepted handshake changes
/// the state, and only from not handshaken to handshaken; the client is
/// served only on a handshaken connection or by the accepting reply; a
/// refused handshake ends the connection.
proof fn lemma_step(
    offered: Set<Seq<char>>,
    handshaken: bool,
    inbound: Inbound,
    reply: Reply,
    handshaken_after: bool,
)
    requires
        handled(offered, handshaken, inbound, reply, handshaken_after),
    ensures
        accepts_handshake(reply) ==> !handshaken && handshaken_after,
        !accepts_handshake(reply) ==> handshaken_after == handshaken,
        serves(reply) ==> handshaken || accepts_handshake(reply),
        refuses_handshake(reply) ==> reply.close,
{
}

/// On a connection, the state before line `k` is handshaken exactly when an
/// earlier reply accepted a handshake.
proof fn lemma_trace_state(
    offered: Set<Seq<char>>,
    inbounds: Seq<Inbound>,
    replies: Seq<Reply>,
    states: Seq<bool>,
    k: int,
)
    requires
        connection_trace(offered, inbounds, replies, states),
        0 <= k <= inbounds.len(),
    ensures
        states[k] <==> exists|j: int| 0 <= j < k && accepts_handshake(#[trigger] replies[j]),
    decreases k,
{
    if k > 0 {
        lemma_trace_state(offered, inbounds, replies, states, k - 1);
        lemma_step(offered, states[k - 1], inbounds[k - 1], replies[k - 1], states[k]);
        if states[k] {
            if !accepts_handshake(replies[k - 1]) {
                let j = choose|j: int| 0 <= j < k - 1 && accepts_handshake(#[trigger] replies[j]);
                assert(0 <= j < k && accepts_handshake(replies[j]));
            }
        } else {
            assert forall|j: int| 0 <= j < k implies !accepts_handshake(#[trigger] replies[j]) by {
                if j < k - 1 {
                } else {
                }
            }
        }
    }
}

/// Over a whole connection: the client is served nothing (no successful
/// response, snapshot or event) before a reply accepts its handshake; at
/// most one reply accepts a handshake; and a reply that refuses a handshake
/// is the last one.
pub proof fn lemma_connection_handshake_gate(
    offered: Set<Seq<char>>,
    inbounds: Seq<Inbound>,
    replies: Seq<Reply>,
    states: Seq<bool>,
)
    requires
        connection_trace(offered, inbounds, replies, states),
    ensures
        forall|i: int|
            0 <= i < replies.len() && serves(#[trigger] replies[i]) ==> exists|j: int|
                0 <= j <= i && accepts_handshake(#[trigger] replies[j]),
        forall|i: int, j: int|
            0 <= i < replies.len() && 0 <= j < replies.len() && accepts_handshake(
                #[trigger] replies[i],
            ) && accepts_handshake(#[trigger] replies[j]) ==> i == j,
        forall|i: int|
            0 <= i < replies.len() && refuses_handshake(#[trigger] replies[i]) ==> i == replies.len()
                - 1,
{
    assert forall|i: int| 0 <= i < replies.len() && serves(#[trigger] replies[i]) implies exists|j: int|
        0 <= j <= i && accepts_handshake(#[trigger] replies[j]) by {
        lemma_step(offered, states[i], inbounds[i], replies[i], states[i + 1]);
        lemma_trace_state(offered, inbounds, replies, states, i);
        if !accepts_handshake(replies[i]) {
            let j = choose|j: int| 0 <= j < i && accepts_handshake(#[trigger] replies[j]);
            assert(0 <= j <= i && accepts_handshake(replies[j]));
        }
    }
    assert forall|i: int, j: int|
        0 <= i < replies.len() && 0 <= j < replies.len() && accepts_handshake(#[trigger] replies[i])
            && accepts_handshake(#[trigger] replies[j]) implies i == j by {
        if i < j {
            lemma_step(offered, states[j], inbounds[j], replies[j], states[j + 1]);
            lemma_trace_state(offered, inbounds, replies, states, j);
        } else if j < i {
            lemma_step(offered, states[i], inbounds[i], replies[i], states[i + 1]);
            lemma_trace_state(offered, inbounds, replies, states, i);
        }
    }
    assert forall|i: int|
        0 <= i < replies.len() && refuses_handshake(#[trigger] replies[i]) implies i == replies.len()
            - 1 by {
        lemma_step(offered, states[i], inbounds[i], replies[i], states[i + 1]);
    }
}

impl Daemon {
    /// Decides the reply to one inbound line of a connection in `session`,
    /// and advances the session.
    pub fn handle(&self, session: &mut Session, inbound: Inbound) -> (reply: Reply)
        ensures
            handled(
                self.offered(),
                old(session).is_handshaken(),
                inbound,
                reply,
                final(session).is_handshaken(),
            ),
    {
        match inbound {
            Inbound::Oversized => {
                let m = error_response(
                    String::from_str("unknown"),
                    ErrorCode::InvalidRequest,
                    String::from_str("IPC frame exceeds the 1 MiB limit"),
                    false,
                );
                Reply { outbound: Outbound::Message(m), announce_ready: false, close: true }
            },
            Inbound::Undecodable(error) => {
                let m = error_response(
                    String::from_str("unknown"),
                    ErrorCode::InvalidRequest,
                    error.message(),
                    false,
                );
                Reply { outbound: Outbound::Message(m), announce_ready: false, close: false }
            },
            Inbound::Message(ClientEnvelope::Handshake { request_id, protocol, capabilities, .. }) => {
                if session.handshaken {
                    let m = error_response(
                        request_id,
                        ErrorCode::InvalidRequest,
                        String::from_str("connection is already handshaken"),
                        false,
                    );
                    return Reply {
                        outbound: Outbound::Message(m),
                        announce_ready: false,
                        close: false,
                    };
                }
                match negotiate(protocol, &capabilities, ipc_v0(), &self.capabilities) {
                    Ok(negotiated) => {
                        session.handshaken = true;
                        let m = ServerEnvelope::Handshake {
                            request_id,
                            accepted: true,
                            protocol: negotiated.version,
                            daemon: daemon_peer(),
                            capabilities: negotiated.capabilities,
                            error: None,
                        };
                        Reply { outbound: Outbound::Message(m), announce_ready: true, close: false }
                    },
                    Err(error) => {
                        let m = ServerEnvelope::Handshake {
                            request_id,
                            accepted: false,
                            protocol: ipc_v0(),
                            daemon: daemon_peer(),
                            capabilities: CapabilitySet::new(),
                            error: Some(error),
                        };
                        Reply { outbound: Outbound::Message(m), announce_ready: false, close: true }
                    },
                }
            },
            Inbound::Message(ClientEnvelope::Request { request_id, method, .. }) => {
                if !session.handshaken {
                    let m = error_response(
                        request_id,
                        ErrorCode::NotHandshaken,
                        String::from_str("handshake must complete before requests"),
                        false,
                    );
                    return Reply {
                        outbound: Outbound::Message(m),
                        announce_ready: false,
                        close: false,
                    };
                }
                let outbound = if method == String::from_str(method::STATE_SNAPSHOT) {
                    Outbound::Snapshot { request_id }
                } else if method == String::from_str(method::CONNECTION_RESUME) {
                    Outbound::Message(success_response(request_id, String::from_str(RESUME_RESULT)))
                } else {
                    let message = String::from_str("unknown method: ").concat(method.as_str());
                    Outbound::Message(
                        error_response(request_id, ErrorCode::InvalidRequest, message, false),
                    )
                };
                Reply { outbound, announce_ready: false, close: false }
            },
        }
    }
}

} // verus!
