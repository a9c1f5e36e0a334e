//! Client-side rules for a remote analytics-query service: how a caller's
//! identity is derived from a credential, how the service's execution envelope
//! is decoded, where a completed result is cached, and what each response
//! means for the caller.
//!
//! The library performs no input or output itself. It builds the request that
//! is to be sent, takes the response that came back, and says what is to be
//! written to the cache and what the caller receives.

pub mod cache;
pub mod client;
pub mod envelope;
pub mod error;
pub mod identity;
pub mod json;
