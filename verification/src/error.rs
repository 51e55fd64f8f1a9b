//! Error taxonomy of the storage backend.

use vstd::prelude::*;

verus! {

/// Errors surfaced by the backend.
///
/// Startup errors (`UnsupportedBackend`) abort opening; per-call errors are
/// returned to the immediate caller. Absent values are not errors: point
/// lookups return `Option` instead. Addressing a column outside the fixed
/// scheme is a programming error and is ruled out by the callers' proof
/// obligations rather than surfaced as a value; failures of the physical
/// disk engines belong to the embedding application, which owns them.
#[derive(Clone, Copy, Debug, PartialEq, Eq, Structural)]
pub enum DbError {
    /// The configured engine selector is not one of the supported kinds.
    UnsupportedBackend,
    /// A record on disk does not decode as the store expects.
    CorruptedData,
    /// A fee for this nonce was already recorded; the entry is kept as it is.
    AlreadyPaid,
    /// The engine refused to apply a batch; no part of the batch was applied.
    CommitFailed,
}

} // verus!
