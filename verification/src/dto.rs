//! Request and response shapes exchanged with the transport layer.
//!
//! The transport layer deserializes requests into these shapes and hands
//! them over as plain values; each shape carries its own validation rules,
//! stated and proved here rather than declared in attributes.

use vstd::prelude::*;

pub mod forum;
pub mod user;

verus! {

/// A minimal status/message reply.
pub struct Response {
    pub status: &'static str,
    pub message: String,
}

} // verus!
