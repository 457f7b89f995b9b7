//! A minimal HTTPS file server core for MPEG-DASH manifests and segments.
//!
//! The crate holds the per-connection pipeline: the bounded, deadline-guarded
//! accumulation of request bytes until the header terminator (`reader`), the
//! request-line parse that accepts only `GET` (`http`), the mapping from how
//! the read loop ended to the response written back (`handler`), the response
//! bytes themselves (`response`), the classification of TLS read errors
//! (`tls`), and the read-only configuration with its defaults (`config`).
//! The sockets, the TLS handshake, the worker pool and the file reads live
//! outside and hand plain values in.

pub mod config;
pub mod handler;
pub mod http;
pub mod reader;
pub mod response;
pub mod tls;
