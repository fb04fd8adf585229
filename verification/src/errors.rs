use vstd::prelude::*;

verus! {

/// Classified failure of one exchange operation.
///
/// Every operation makes at most one attempt and surfaces the first failure
/// it meets; nothing is retried here.
#[derive(Debug, Clone, PartialEq, Eq)]
pub enum KrakenError {
    /// The HTTP round trip itself failed; carries the transport's message.
    TransportError(String),
    /// The response body was not well-formed JSON, or a field had the wrong
    /// shape; carries a short description.
    ParseError(String),
    /// Well-formed JSON lacking a field the wire contract promises; carries
    /// the field's name.
    MissingField(String),
    /// The exchange reported one or more errors; carries the reported
    /// messages verbatim, in the order they arrived.
    ExchangeError(Vec<String>),
    /// A caller-supplied argument was rejected before any network work.
    ValidationError(String),
}

/// Failure of the signature engine alone.
#[derive(Debug, Clone, PartialEq, Eq)]
pub enum SignatureError {
    /// The configured secret is not valid base64.
    BadSecret,
    /// MAC key initialisation failed. The HMAC implementation used here
    /// accepts keys of any length, so this is never produced; the variant
    /// stays so that callers can match the full taxonomy.
    KeyError,
}

/// Failure type of the public depth (order book) queries.
#[derive(Debug, Clone, PartialEq, Eq)]
pub struct MarketError {
    pub message: String,
}

} // verus!
