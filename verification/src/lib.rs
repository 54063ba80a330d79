//! A small feed-publishing core: posts, an append-only post store, and the
//! request handlers that turn HTTP-shaped input into store operations and
//! replies. The library's own functions are verified against their
//! contracts. The calls into the `uuid`, `chrono`, `rustc_serialize` and
//! `router` crates stand in wrappers whose contracts are believed, not
//! proved; each says so above its header.

pub mod database;
pub mod error;
pub mod handlers;
pub mod ident;
pub mod json;
pub mod model;
pub mod routing;
pub mod timestamp;
