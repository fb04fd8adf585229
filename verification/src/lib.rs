//! A client library for a cryptocurrency exchange's REST API: nonce
//! management, the exchange's request-signing scheme, and decoding of the
//! JSON envelope that every response arrives in.

pub mod client;
pub mod crypto;
pub mod envelope;
pub mod errors;
pub mod json;
pub mod market;
pub mod numeric;
pub mod ops;
pub mod signing;
