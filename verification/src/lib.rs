//! A generator wrapper that limits how many bytes a pseudorandom generator
//! gives out before it is rebuilt from an independent seed source.
//!
//! [`ReseedingRng`] owns a generator, a seed source and a byte budget. Every
//! draw is counted against the budget; when the budget is used up, the
//! generator is rebuilt ("reseeded") from the seed source. What happens when
//! the seed source fails is the subject of [`policy`]; the arithmetic of the
//! budget is the subject of [`budget`].
//!
//! The generators themselves come from `rand_core` and are opaque here: the
//! contracts say how the budget moves and when the generator is kept, never
//! what the generator produces.

pub mod budget;
pub mod error;
pub mod kind;
pub mod policy;
pub mod reseeding;
mod source;

pub use budget::{Budget, Countdown, DELAY_DIVISOR};
pub use error::{FillError, Rejected, ReseedError};
pub use kind::FailureKind;
pub use policy::{decide, narrow, Attempt, ReseedOutcome, Step, MAX_ATTEMPTS};
pub use reseeding::{ReseedReport, ReseedingRng};
