//! Verified core of an Emby/Jellyfin media-server client: session state,
//! header composition, request construction, response interpretation,
//! image-cache decisions, and the error taxonomy surfaced to callers.
//!
//! The network transport, the file system and the asynchronous runtime are
//! outside collaborators: they hand this library plain values (status codes,
//! header strings, body bytes) and receive plain values back.

pub mod address;
pub mod cache;
pub mod decode;
pub mod domain;
pub mod error;
pub mod header;
pub mod json;
pub mod limiter;
pub mod query;
pub mod request;
pub mod session;
pub mod text;
