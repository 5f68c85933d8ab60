//! Authorization and moderation engine for a discussion-forum backend.
//!
//! The engine decides, for every mutating or visibility-sensitive operation,
//! whether the acting principal is allowed to perform it, and maintains the
//! warning/ban lifecycle and the token-based identity-proof workflows (email
//! verification, password reset) that gate account state transitions.
//!
//! Every decision is synchronous and computed from data already fetched plus
//! the wall-clock time supplied by the caller; storage, transport and
//! cryptographic primitives live outside this crate and hand it plain values.

use vstd::prelude::*;

pub mod model;
pub mod outcome;
pub mod policy;
pub mod guard;
pub mod directory;
pub mod moderation;
pub mod tokens;
pub mod auth;
pub mod account;
pub mod dto;

verus! {

/// Runtime configuration, loaded from the environment by the embedding
/// program and handed to it as plain values.
#[derive(Clone, Debug)]
pub struct Config {
    pub database_url: String,
    pub jwt_secret: String,
    pub jwt_maxage: i64,
    pub port_http: u16,
    pub port_https: u16,
    pub enable_https: bool,
    pub email_verification: bool,
    pub host_url: String,
}

} // verus!
