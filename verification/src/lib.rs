//! Query-protocol adapter for a namespaced graph store reached over HTTP.
//!
//! The crate models hierarchical namespaces, renders namespace-scoped patterns and
//! templates in the engine's expression language, builds the exact wire request of
//! every supported operation, and decides how a built request is sent and how the
//! transport's answer is reported.

pub mod client;
pub mod details;
pub mod error;
pub mod namespace;
pub mod percent;
pub mod request;
pub mod text;
pub mod wire;
