//! A JSON-RPC session and dispatch engine: frame validation, method
//! dispatch with protocol error codes, a session registry with bounded
//! outbound queues, and event fan-out to every live session.

pub mod json;
pub mod codec;
pub mod error;
pub mod dispatch;
pub mod registry;
pub mod session;
pub mod components;
pub mod documentation;
pub mod projects;
pub mod testing;
