//! A server library for a line-oriented request/response text protocol:
//! request parsing, response headers, virtual-host routing, file, CGI and
//! directory-listing pipelines, and the per-connection state machine.

pub mod configuration;
pub mod error;
pub mod mime;
pub mod pipe;
pub mod protocol;
pub mod text;
