//! Capability names that the daemon offers.

use vstd::prelude::*;

verus! {

pub const STATE_SNAPSHOT: &'static str = "state.snapshot";

pub const CONNECTION_RESUME: &'static str = "connection.resume";

pub const TASK_STATE_EVENT: &'static str = "event.task_state_changed";

pub const DIAGNOSTIC_EVENT: &'static str = "event.diagnostic";

} // verus!
