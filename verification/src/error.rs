//! What an engine operation can fail with.
use vstd::prelude::*;

verus! {

/// Failure of the core library's part: keys, encoding, signatures.
#[derive(Clone, Copy, Debug, PartialEq, Eq, Structural)]
pub enum CoreError {
    /// There is no identity to sign with.
    NoPrivateKey,
    /// The options given cannot be sent.
    InvalidOption,
    /// The object does not fit the engine's buffer, or comes out of the
    /// encoder in a shape that cannot be taken apart again.
    InvalidPageLength,
}

/// Failure of an engine operation.
#[derive(Debug, PartialEq)]
pub enum EngineError<CommsError, StoreError> {
    /// The core library's part failed.
    Core(CoreError),
    /// The transport failed.
    Comms(CommsError),
    /// The store failed.
    Store(StoreError),
    /// The operation is not possible in the state the engine is in.
    Unhandled,
    /// A message of a kind that the engine knows of and does not implement.
    Unsupported,
}

} // verus!
