use vstd::prelude::*;

verus! {

/// The failure kinds a stream operation can report.
///
/// `Interrupted` is the one transient kind: an attempt that failed with it
/// made no progress and may simply be repeated. Every other kind is a real
/// failure that is handed to the caller on first occurrence.
#[derive(Clone, Copy, Debug, PartialEq, Eq, Structural)]
pub enum IoErrorKind {
    /// The operation was interrupted before it made any progress.
    Interrupted,
    /// The resource refused the operation.
    PermissionDenied,
    /// The resource ended before the requested amount was available.
    UnexpectedEof,
    /// The bytes read do not form valid text.
    InvalidData,
    /// Any other failure.
    Other,
}

} // verus!
