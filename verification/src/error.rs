//! What the fallible operations return when they fail.

use crate::kind::FailureKind;
use rand_core::Error;
use vstd::prelude::*;

verus! {

/// A failed reseed, as the fallible procedure reports it.
#[derive(Debug)]
pub struct ReseedError {
    /// The kind under which the failure is reported: `NotReady` or
    /// `Transient`.
    pub kind: FailureKind,
    /// The kind of the underlying failure of the seed source.
    pub cause: FailureKind,
    /// The error of `rand_core` that carries `kind`, a message and, as its
    /// cause, the seed source's own error.
    pub error: Error,
}

impl ReseedError {
    /// Validity: the reported kind is the one that the fallible procedure
    /// reports for the underlying kind.
    pub open spec fn wf(self) -> bool {
        self.kind == self.cause.narrowed()
    }
}

/// Why a fallible fill failed.
#[derive(Debug)]
pub enum FillError {
    /// The wrapped generator failed; its error is handed on as it came.
    Generator(Error),
    /// The buffer was filled, a reseed was due, and the reseed failed.
    Reseed(ReseedError),
}

/// A construction that was refused: the threshold is more than the
/// countdown can hold. The generator and the seed source come back as they
/// were given.
#[derive(Debug)]
pub struct Rejected<R, Rsdr> {
    /// The generator that was given.
    pub rng: R,
    /// The seed source that was given.
    pub reseeder: Rsdr,
    /// The threshold that was refused.
    pub threshold: u64,
}

} // verus!
