//! Versioned, transport-independent messages for GTTY local IPC, their
//! framing, protocol negotiation, and the decisions of the `gttyd` daemon
//! that speaks them.

pub mod capability;
pub mod capability_set;
pub mod daemon;
pub mod frame;
pub mod method;
pub mod model;
pub mod name_order;
pub mod negotiate;
pub mod socket;
pub mod text;

pub use capability_set::CapabilitySet;
pub use daemon::{
    daemon_peer, daemon_ready_event, error_response, receive_line, success_response, Daemon,
    Inbound, Outbound, Reply, Session, DAEMON_NAME, DAEMON_VERSION, READ_LIMIT, RESUME_RESULT,
};
pub use frame::{decode_frame, encode_frame, FrameError, MAX_FRAME_BYTES};
pub use model::{
    ipc_v0, ClientEnvelope, DaemonSnapshot, DiagnosticLevel, ErrorCode, EventPayload, IpcError,
    Peer, ProtocolVersion, ServerEnvelope, TaskSnapshot, TaskState, IPC_V0_MAJOR, IPC_V0_MINOR,
};
pub use negotiate::{negotiate, NegotiatedProtocol};
pub use socket::{socket_location, SocketLocation};
