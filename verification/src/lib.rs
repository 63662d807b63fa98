//! Credential-issuance core of a multi-device authentication service.
//!
//! The library turns a set of submitted credentials (a password or a rotating
//! refresh token) into a fresh token pair, optionally gated by a second
//! authentication factor.  It covers grant dispatch, device-identity
//! reconciliation and the two-factor challenge state machine; storage records,
//! verifier verdicts and fresh secret material are handed in as plain values
//! by the caller.

pub mod form;
pub mod laws;
pub mod login;
pub mod store;
pub mod strutil;
pub mod twofactor;
pub mod types;
