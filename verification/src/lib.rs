//! Core logic of a small HTTP forwarding pair: a forwarder that relays
//! `GET /` to a fixed upstream and a backend that echoes request metadata.
//!
//! The modules here hold the decision and formatting logic of both
//! processes; the surrounding HTTP server, client and bootstrap glue live
//! outside the verified library and exchange plain values with it.

use vstd::prelude::*;

pub mod forward;
pub mod ingress;
pub mod relay;
pub mod route;
pub mod startup;
pub mod summary;
pub mod text;
pub mod upstream;

verus! {

/// A status/message pair, the shape of a structured reply body.
#[derive(Clone)]
pub struct MessageResponse {
    pub status: String,
    pub message: String,
}

} // verus!
