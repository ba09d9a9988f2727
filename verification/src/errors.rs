//! Error taxonomy at the library boundary. The categories are kept
//! distinguishable: I/O failures, validation failures (rejected before
//! any byte of a target image is touched), runtime failures of the
//! external patch engine, and failures raised by a progress observer
//! (always isolated, never escalated).

use vstd::prelude::*;

verus! {

/// Failure to read a disc image's header region. Surfaced immediately
/// and never retried. (A file that cannot be opened at all is reported
/// by whatever opens it, before the library sees any bytes.)
#[derive(Clone, Copy, PartialEq, Eq, Structural, Debug)]
pub enum IoError {
    /// The image is shorter than the fixed header region.
    TooShort,
}

/// Failure of a patch operation, reported before or after the external
/// engine runs.
#[derive(PartialEq, Eq, Debug)]
pub enum PatchError {
    /// The supplied revision string is outside the closed canonical set.
    UnknownRevision,
    /// The configuration document failed to parse or validate; the
    /// parser's message is carried unmodified. Raised before any
    /// mutation of the target image.
    InvalidConfig(String),
    /// The external patch engine reported failure after patching began;
    /// the engine's message is carried unmodified.
    Runtime(String),
}

/// Whether an error belongs to the validation category: one raised
/// before the patching state is ever entered.
pub open spec fn is_validation_error(e: PatchError) -> bool {
    e is UnknownRevision || e is InvalidConfig
}

/// A failure raised by an externally supplied progress observer during
/// a callback. Caught at the bridge boundary and reported back to the
/// caller of the bridge; never propagated into the patch operation.
#[derive(PartialEq, Eq, Debug)]
pub struct ObserverError {
    pub message: String,
}

} // verus!
