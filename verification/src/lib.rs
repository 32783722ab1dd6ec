//! Core of an HTTP traffic filter: it resolves the filter configuration once,
//! then drives one controller per request through its phases, rewriting
//! headers and deciding whether the stream continues or pauses.

pub mod config;
pub mod decimal;
pub mod filter;
pub mod headers;
pub mod json;
pub mod metadata;
pub mod properties;
pub mod root;
pub mod utf8;
