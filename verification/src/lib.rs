//! A client library for OCI image registries speaking the Docker Registry
//! HTTP V2 protocol.
//!
//! The library models the protocol's value types and the decision logic of a
//! registry client: content digests, manifests, request building, response
//! interpretation, incremental blob verification, and the orchestration of
//! concurrent layer downloads.  The HTTP transport and JSON decoding sit
//! outside the library and hand it plain values.

pub mod blob;
pub mod client;
pub mod digest;
pub mod errors;
pub mod hashing;
pub mod manifest;
pub mod orchestrator;
