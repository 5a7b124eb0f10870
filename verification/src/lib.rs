//! A format-decoding layer for a log-processing pipeline: decoders turn raw
//! byte payloads into structured, schema-tagged events, honoring one of two
//! event-layout namespaces selected by configuration.

pub mod bytes;
pub mod config;
pub mod decoding;
pub mod event;
pub mod schema;
