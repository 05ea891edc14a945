//! A persistent, ordered key-value store over byte keys and byte values,
//! and the request dispatcher that serves it.
pub mod engine;
pub mod service;
pub mod laws;
