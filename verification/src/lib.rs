//! A verified mailbox operation layer. The library holds every decision
//! of the session and operation protocol — query construction, result
//! ordering and translation, content decoding, flag handling, and the
//! multi-step move protocol with its partial-failure semantics — each
//! stated in a contract and proved. Network exchanges themselves are
//! performed by a thin driver outside the library, which feeds results
//! back in as plain values.

pub mod client;
pub mod config;
pub mod content;
pub mod flags;
pub mod headers;
pub mod moves;
pub mod query;
pub mod search;
pub mod text;
pub mod time;
pub mod types;
