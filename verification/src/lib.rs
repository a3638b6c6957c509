//! Core of a single-threaded, event-driven connection dispatcher: a session
//! registry mapping raw I/O handles to logical sessions and their behaviors,
//! and the state machine of one active duplex connection with a
//! partial-write-safe outbound queue.

use vstd::prelude::*;

mod connection;
mod registry;

pub use connection::is_transient;
pub use connection::plan_dispatch;
pub use connection::scratch_buffer;
pub use connection::ActiveConnection;
pub use connection::CrustMsg;
pub use connection::DispatchPlan;
pub use connection::EventSet;
pub use connection::IoErrorKind;
pub use connection::SCRATCH_BUFFER_LEN;
pub use registry::Context;
pub use registry::Core;
pub use registry::Token;

verus! {

} // verus!
