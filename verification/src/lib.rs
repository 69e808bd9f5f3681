//! Access-control and session core of a gateway that fronts an execution
//! control plane, a memory/search service, and an identity service.
//!
//! The library covers credential hashing, signed-token issuance and
//! validation, server-side session tracking with revocation, the
//! authorization check that gates every protected route, and the
//! per-connection subscribe/unsubscribe protocol of the log stream.

pub mod config;
pub mod control_plane;
pub mod errors;
pub mod flow;
pub mod iam;
pub mod memory;
pub mod middleware;
pub mod password;
pub mod session;
pub mod stream;
pub mod token;
pub mod workspaces;
