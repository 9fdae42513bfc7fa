//! Verified components of an observability pipeline: a secrets backend that
//! answers every request with one fixed value, and the configuration of a
//! source that listens on TCP, UDP or Unix domain sockets.

pub mod codecs;
pub mod error;
pub mod namespace;
pub mod net;
pub mod schema;
pub mod secrets;
pub mod sources;
pub mod toml_value;
