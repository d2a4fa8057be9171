//! The contract between the request handler and the component that judges
//! signatures.

use vstd::prelude::*;

verus! {

/// What one verification attempt found.
#[derive(Clone, Copy, Debug, PartialEq, Eq, Structural)]
pub enum VerificationOutcome {
    /// The signature belongs to the data.
    Valid,
    /// The signature does not belong to the data.
    Invalid,
    /// No conclusion was reached: key material was unusable, or the checker
    /// itself failed.
    Indeterminate,
}

impl VerificationOutcome {
    /// The outcome that a three-valued verdict stands for: `Some(true)` is a
    /// valid signature, `Some(false)` an invalid one, `None` no decision.
    pub open spec fn of_verdict(verdict: Option<bool>) -> VerificationOutcome {
        match verdict {
            Some(true) => VerificationOutcome::Valid,
            Some(false) => VerificationOutcome::Invalid,
            None => VerificationOutcome::Indeterminate,
        }
    }

    /// Reads a three-valued verdict as an outcome.
    pub fn from_verdict(verdict: Option<bool>) -> (outcome: VerificationOutcome)
        ensures
            outcome == Self::of_verdict(verdict),
    {
        match verdict {
            Some(true) => VerificationOutcome::Valid,
            Some(false) => VerificationOutcome::Invalid,
            None => VerificationOutcome::Indeterminate,
        }
    }
}

/// Judges whether a signature belongs to a payload.
///
/// An implementation answers every call with one outcome and reports its own
/// faults as [`VerificationOutcome::Indeterminate`]. It takes `&self`: one
/// checker serves every request and is never changed by any of them.
///
/// `check` promises nothing here, so every answer is taken as it comes. An
/// implementation that states more of its own `check` is held to it, and
/// those who call it through this trait learn it.
pub trait Checker {
    /// Judges `signature` against `data`.
    fn check(&self, data: &[u8], signature: &[u8]) -> VerificationOutcome;
}

} // verus!
