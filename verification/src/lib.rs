//! Typed REST endpoint descriptors, and the rules by which a client and a
//! server agree on how a call described by one travels over HTTP.
//!
//! An endpoint is declared once, as a descriptor that pairs a verb and a
//! path with the types of the request and of the response. The client builds
//! its request from the descriptor and the server binds its handler to the
//! same descriptor, so the two cannot disagree on verb, path or types.
//! `DELETE` and `GET` carry the payload in the query string; `POST` and `PUT`
//! carry it as JSON in the body.
//!
//! The library computes on plain values and leaves the network to its caller.

pub mod api;
pub mod client;
pub mod codec;
pub mod descriptor;
pub mod error;
pub mod fields;
pub mod laws;
pub mod message;
pub mod payload;
pub mod server;
pub mod status;
pub mod text;
