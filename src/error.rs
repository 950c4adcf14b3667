//! Errors surfaced by the session layer.
use vstd::prelude::*;

verus! {

#[derive(Debug, Clone, PartialEq, Eq)]
pub enum Error {
    /// The transport reported an error; the code is passed through as is.
    Transport(i32),
    /// A state or command value could not be converted to or from JSON; the
    /// message of the serializer is kept.
    Serialization(String),
    /// No device identifier was given.
    MissingIdentifier,
    /// Exactly-once delivery was requested.
    UnsupportedQoS,
    /// The payload exceeds the broker's message size limit.
    PayloadTooLarge,
}

pub type Result<T> = core::result::Result<T, Error>;

} // verus!
