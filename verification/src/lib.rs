//! Request-construction and wire-codec core for a document-store HTTP API:
//! typed request builders that assemble the HTTP method, URL path segments,
//! ordered query pairs and body of each operation, a bulk-action codec for
//! the newline-delimited batch format, and a duration-literal parser.
//! Actual network transport is a caller-supplied collaborator and lives
//! outside this crate.

pub mod encode;
pub mod types;
pub mod bulk;
pub mod http;
pub mod actions;
pub mod indices;
