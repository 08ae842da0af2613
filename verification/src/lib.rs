//! The rules of an administrative backend that keeps a registry of users in step with a
//! remote device-session service and reads the logs of services from a container runtime.
//!
//! Nothing here reads or writes anything outside the process. The two multi-step
//! operations, the deletion of a user and the answering of a log query, are state machines:
//! the caller makes each outside call that the machine asks for and hands back what it gave.

pub mod accounts;
pub mod containers;
pub mod deletion;
pub mod lines;
pub mod logs;
pub mod phone;
pub mod registry;
pub mod statics;
pub mod text;
