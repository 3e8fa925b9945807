//! Request method names supported by IPC v0.

use vstd::prelude::*;

verus! {

pub const STATE_SNAPSHOT: &'static str = "state.snapshot";

pub const CONNECTION_RESUME: &'static str = "connection.resume";

} // verus!
