//! Ordered icon-mapping configuration resolution.
//!
//! The library locates a per-user configuration file, decodes an ordered
//! key/value mapping from it, and falls back to a compiled-in default
//! mapping whenever the user file is absent, unreadable, or malformed.
//! Declaration order of the mapping is semantically meaningful (first match
//! wins downstream), so every stage of the pipeline keeps the entries as an
//! ordered sequence of pairs.

pub mod asset;
pub mod decode;
pub mod locate;
pub mod parse;
pub mod resolve;
pub mod scalar;
pub mod value;
