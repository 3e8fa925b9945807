use vstd::prelude::*;

use crate::capability_set::CapabilitySet;

verus! {

/// A protocol version: peers interoperate when their major numbers agree.
#[derive(Clone, Copy, Debug, PartialEq, Eq, Structural)]
pub struct ProtocolVersion {
    pub major: u16,
    pub minor: u16,
}

impl ProtocolVersion {
    pub fn new(major: u16, minor: u16) -> (v: Self)
        ensures
            v.major == major,
            v.minor == minor,
    {
        ProtocolVersion { major, minor }
    }
}

/// Major number of the protocol version implemented here.
pub const IPC_V0_MAJOR: u16 = 0;

/// Minor number of the protocol version implemented here.
pub const IPC_V0_MINOR: u16 = 1;

/// The protocol version implemented here, as a value.
pub open spec fn spec_ipc_v0() -> ProtocolVersion {
    ProtocolVersion { major: IPC_V0_MAJOR, minor: IPC_V0_MINOR }
}

/// Current protocol version implemented by this workspace.
pub fn ipc_v0() -> (v: ProtocolVersion)
    ensures
        v == spec_ipc_v0(),
{
    ProtocolVersion::new(IPC_V0_MAJOR, IPC_V0_MINOR)
}

/// One end of a connection: a program name and its version.
#[derive(Clone, Debug, PartialEq, Eq)]
pub struct Peer {
    pub name: String,
    pub version: String,
}

/// A message from a client to the daemon.
#[derive(Clone, Debug, PartialEq)]
pub enum ClientEnvelope {
    Handshake {
        request_id: String,
        protocol: ProtocolVersion,
        client: Peer,
        capabilities: CapabilitySet,
    },
    Request {
        request_id: String,
        task_id: Option<String>,
        session_id: Option<String>,
        method: String,
        /// The request's parameters, as JSON text.
        params: String,
        timeout_ms: Option<u64>,
    },
}

/// A message from the daemon to a client.
#[derive(Clone, Debug, PartialEq)]
pub enum ServerEnvelope {
    Handshake {
        request_id: String,
        accepted: bool,
        protocol: ProtocolVersion,
        daemon: Peer,
        capabilities: CapabilitySet,
        error: Option<IpcError>,
    },
    Response {
        request_id: String,
        ok: bool,
        /// The result, as JSON text.
        result: Option<String>,
        error: Option<IpcError>,
    },
    Event {
        event_id: String,
        task_id: Option<String>,
        session_id: Option<String>,
        event: EventPayload,
    },
}

/// What an event reports.
#[derive(Clone, Debug, PartialEq)]
pub enum EventPayload {
    DaemonReady { pid: u32 },
    TaskStateChanged { previous: Option<TaskState>, current: TaskState },
    Diagnostic { level: DiagnosticLevel, code: String, message: String },
}

#[derive(Clone, Copy, Debug, PartialEq, Eq, Structural)]
pub enum DiagnosticLevel {
    Debug,
    Info,
    Warning,
    Error,
}

#[derive(Clone, Copy, Debug, PartialEq, Eq, Structural)]
pub enum TaskState {
    Queued,
    Running,
    WaitingForInput,
    WaitingForApproval,
    Reviewing,
    Failed,
    Completed,
    Cancelled,
}

#[derive(Clone, Debug, PartialEq, Eq)]
pub struct TaskSnapshot {
    pub task_id: String,
    pub session_id: Option<String>,
    pub state: TaskState,
}

#[derive(Clone, Debug, PartialEq, Eq)]
pub struct DaemonSnapshot {
    pub protocol: ProtocolVersion,
    pub uptime_ms: u64,
    pub tasks: Vec<TaskSnapshot>,
}

#[derive(Clone, Copy, Debug, PartialEq, Eq, Structural)]
pub enum ErrorCode {
    InvalidRequest,
    IncompatibleVersion,
    NotHandshaken,
    Timeout,
    Unavailable,
    Internal,
}

/// An error reported to a peer.
#[derive(Clone, Debug, PartialEq, Eq)]
pub struct IpcError {
    pub code: ErrorCode,
    pub message: String,
    pub retryable: bool,
}

impl IpcError {
    pub fn new(code: ErrorCode, message: String, retryable: bool) -> (e: Self)
        ensures
            e.code == code,
            e.message == message,
            e.retryable == retryable,
    {
        IpcError { code, message, retryable }
    }
}

} // verus!
