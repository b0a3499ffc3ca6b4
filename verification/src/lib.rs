//! A minimal micro-blogging backend core: routing, persistence access and
//! response rendering for a single shared feed of short text posts.
//!
//! The crate verifies the request-dispatch and persistence-access layer:
//! how a (method, path) pair selects exactly one handler, how all reads and
//! writes of the post table go through one connection owned by the store,
//! and how the JSON and HTML representations are derived from one read.
//! Listening on a socket, reading request bodies and decoding form data are
//! left to the surrounding program, which hands this library plain values.

pub mod post;
pub mod text;
pub mod router;
pub mod json;
pub mod html;
pub mod db;
pub mod store;
pub mod handle;
