//! The calls into `rand_core`.
//!
//! Everything in this file is taken on trust: the bodies are not verified,
//! and each contract repeats what the source of `rand_core` shows. The
//! generators are reached through the traits `RngCore` and `SeedableRng`,
//! whose implementations are the caller's; nothing is claimed of what they
//! return.

use crate::kind::FailureKind;
use rand_core::{Error, ErrorKind, RngCore, SeedableRng};
use vstd::prelude::*;

verus! {

/// `rand_core::Error`: a kind, a message and an optional cause. Verified
/// code carries such a value along and never looks inside.
#[verifier::external_type_specification]
#[verifier::external_body]
pub struct ExError(Error);

/// `RngCore::next_u32`. Nothing is claimed of the value.
#[verifier::external_body]
pub(crate) fn next_u32_of<G: RngCore>(generator: &mut G) -> u32 {
    generator.next_u32()
}

/// `RngCore::next_u64`. Nothing is claimed of the value.
#[verifier::external_body]
pub(crate) fn next_u64_of<G: RngCore>(generator: &mut G) -> u64 {
    generator.next_u64()
}

/// `RngCore::fill_bytes`. The buffer is a slice, so it keeps its length;
/// nothing is claimed of the bytes.
#[verifier::external_body]
pub(crate) fn fill_bytes_of<G: RngCore>(generator: &mut G, dest: &mut [u8])
    ensures
        final(dest)@.len() == old(dest)@.len(),
{
    generator.fill_bytes(dest)
}

/// `RngCore::try_fill_bytes`. The buffer keeps its length; whether the call
/// succeeds is the generator's affair.
#[verifier::external_body]
pub(crate) fn try_fill_bytes_of<G: RngCore>(generator: &mut G, dest: &mut [u8]) -> (filled: Result<
    (),
    Error,
>)
    ensures
        final(dest)@.len() == old(dest)@.len(),
{
    generator.try_fill_bytes(dest)
}

/// `SeedableRng::from_rng`: builds a new generator from entropy drawn from
/// `source`. Whether it succeeds is the seed source's affair.
#[verifier::external_body]
pub(crate) fn from_rng_of<G: SeedableRng, S: RngCore>(source: &mut S) -> Result<G, Error> {
    G::from_rng(source)
}

/// Reads the public field `kind` of a `rand_core::Error`, each variant of
/// `ErrorKind` given as the variant of the same name.
#[verifier::external_body]
pub(crate) fn kind_of(error: &Error) -> FailureKind {
    match error.kind {
        ErrorKind::Unavailable => FailureKind::Unavailable,
        ErrorKind::Unexpected => FailureKind::Unexpected,
        ErrorKind::Transient => FailureKind::Transient,
        ErrorKind::NotReady => FailureKind::NotReady,
        ErrorKind::__Nonexhaustive => FailureKind::Unlisted,
    }
}

/// `ErrorKind::should_wait`, which `rand_core` defines as equality with
/// `ErrorKind::NotReady`.
#[verifier::external_body]
pub(crate) fn should_wait(kind: FailureKind) -> (wait: bool)
    ensures
        wait == (kind == FailureKind::NotReady),
{
    let kind = match kind {
        FailureKind::Unavailable => ErrorKind::Unavailable,
        FailureKind::Unexpected => ErrorKind::Unexpected,
        FailureKind::Transient => ErrorKind::Transient,
        FailureKind::NotReady => ErrorKind::NotReady,
        FailureKind::Unlisted => ErrorKind::__Nonexhaustive,
    };
    kind.should_wait()
}

/// `ErrorKind::should_retry`, which `rand_core` defines as inequality with
/// `ErrorKind::Unavailable`.
#[verifier::external_body]
pub(crate) fn should_retry(kind: FailureKind) -> (retry: bool)
    ensures
        retry == (kind != FailureKind::Unavailable),
{
    let kind = match kind {
        FailureKind::Unavailable => ErrorKind::Unavailable,
        FailureKind::Unexpected => ErrorKind::Unexpected,
        FailureKind::Transient => ErrorKind::Transient,
        FailureKind::NotReady => ErrorKind::NotReady,
        FailureKind::Unlisted => ErrorKind::__Nonexhaustive,
    };
    kind.should_retry()
}

/// `Error::with_cause`: a new error of the given kind and message that
/// holds `cause` as its cause. The result is opaque here, so nothing is
/// stated of it.
#[verifier::external_body]
pub(crate) fn with_cause(kind: FailureKind, msg: &'static str, cause: Error) -> Error {
    let kind = match kind {
        FailureKind::Unavailable => ErrorKind::Unavailable,
        FailureKind::Unexpected => ErrorKind::Unexpected,
        FailureKind::Transient => ErrorKind::Transient,
        FailureKind::NotReady => ErrorKind::NotReady,
        FailureKind::Unlisted => ErrorKind::__Nonexhaustive,
    };
    Error::with_cause(kind, msg, cause)
}

} // verus!
