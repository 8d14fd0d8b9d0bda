//! A local stand-in for the AWS Lambda Runtime Interface, written as a set of
//! sequential, verified state machines.
//!
//! The gateway pairs each caller-facing invocation with one worker poll and one
//! worker response, and keeps a pool of worker processes alive. Everything that
//! decides something lives here and is proved against its contract; waiting,
//! sockets and process handling are left to the embedding program, which calls
//! in under a lock and acts on what comes back.

mod clock;
pub mod id;
pub mod types;
pub mod channel;
pub mod response_map;
pub mod response_history;
pub mod runtime;
pub mod manager;
pub mod process;
pub mod handler;
pub mod api;
pub mod sample;

pub use crate::id::AWSRequestId;
pub use crate::id::RuntimeId;
pub use crate::channel::RequestChannel;
pub use crate::channel::SendRequestEventToChannelError;
pub use crate::response_map::ResponseMap;
pub use crate::runtime::Runtime;
pub use crate::runtime::RuntimeList;
pub use crate::manager::RuntimeGenerator;
pub use crate::manager::RuntimeManager;
pub use crate::process::RuntimeProcessGenerator;
pub use crate::handler::invocation_next_handler;
pub use crate::handler::invocation_response_handler;
pub use crate::handler::rambda_handler;
