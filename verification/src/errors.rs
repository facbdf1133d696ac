use vstd::prelude::*;

verus! {

/// Failures surfaced by the library.
#[derive(Clone, Copy, Debug, PartialEq, Eq, Structural)]
pub enum SyncError {
    /// The local object store could not be read or written.
    StoreError,
    /// Talking to a remote endpoint failed. Reserved for callers folding a
    /// transport report into this type; the fetch cycle itself carries each
    /// seed's failure as text in its conclusion.
    TransportError,
    /// A log entry does not decode as an envelope.
    MalformedEnvelope,
    /// A concurrent writer moved a log reference between read and update.
    Conflict,
}

} // verus!
