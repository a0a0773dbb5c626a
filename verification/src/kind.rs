//! The kinds of failure that a generator or a seed source reports, and how
//! the two reseed procedures sort them.

use vstd::prelude::*;

verus! {

/// The kind carried by a failure of a generator or of a seed source.
///
/// There is one variant for each variant of `rand_core::ErrorKind`;
/// `Unlisted` stands for the variant that `rand_core` keeps out of its
/// documentation.
#[derive(Clone, Copy, Debug, PartialEq, Eq, Structural)]
pub enum FailureKind {
    /// The feature is not available, and will not become so.
    Unavailable,
    /// A failure with no more specific kind.
    Unexpected,
    /// A passing failure, likely gone at the next attempt.
    Transient,
    /// The source is not ready yet: it asks to be tried again later.
    NotReady,
    /// A kind that `rand_core` does not list.
    Unlisted,
}

impl FailureKind {
    /// The wait class: the source is for the moment unavailable, and the
    /// next attempt should be put off. This is what `rand_core` answers to
    /// `should_wait`.
    pub open spec fn waits(self) -> bool {
        self == FailureKind::NotReady
    }

    /// What `rand_core` answers to `should_retry`: every kind but
    /// `Unavailable` may be gone when tried again.
    pub open spec fn retries(self) -> bool {
        self != FailureKind::Unavailable
    }

    /// The retry class of the infallible procedure: worth another attempt at
    /// once.
    pub open spec fn retries_at_once(self) -> bool {
        !self.waits() && self.retries()
    }

    /// The permanent class of the infallible procedure: neither waiting nor
    /// retrying helps.
    pub open spec fn permanent(self) -> bool {
        !self.waits() && !self.retries()
    }

    /// The kinds that the fallible procedure hands to its caller as they
    /// are: `NotReady` and `Transient`.
    pub open spec fn passed_on(self) -> bool {
        self == FailureKind::NotReady || self == FailureKind::Transient
    }

    /// The kind that the fallible procedure reports for a failure of this
    /// kind: the kind itself where it is passed on, `Transient` for every
    /// other.
    pub open spec fn narrowed(self) -> FailureKind {
        if self.passed_on() {
            self
        } else {
            FailureKind::Transient
        }
    }
}

} // verus!
