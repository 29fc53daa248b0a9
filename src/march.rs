use vstd::prelude::*;
use crate::error::PricingError;

verus! {

/// Where a backward march of `total` steps stands.
#[derive(Debug, Clone, Copy, PartialEq, Eq, Structural)]
pub enum MarchState {
    /// The step operator has not been factorized yet.
    Uninitialized,
    /// Column `k` is the next to be computed, `1 <= k <= total`.
    Stepping(usize),
    /// All columns are written; the last one is the answer.
    Complete,
}

/// What the numerical side reports after doing the work a state asks for.
#[derive(Debug, Clone, Copy, PartialEq, Eq, Structural)]
pub enum MarchEvent {
    /// The step operator was factorized.
    Factorized,
    /// The step operator could not be factorized.
    Singular,
    /// The current column was solved and every value in it is finite.
    Solved,
    /// The current column holds a non-finite value at this node.
    NonFinite(usize),
}

impl MarchState {
    /// The state is consistent with a march of `total` steps.
    pub open spec fn wf(self, total: nat) -> bool {
        match self {
            MarchState::Stepping(k) => 1 <= k <= total,
            _ => true,
        }
    }

    /// The event answers the work that this state asks for.
    pub open spec fn accepts(self, event: MarchEvent) -> bool {
        match self {
            MarchState::Uninitialized => event is Factorized || event is Singular,
            MarchState::Stepping(_) => event is Solved || event is NonFinite,
            MarchState::Complete => false,
        }
    }

    /// The transition taken on `event` in a march of `total` steps.
    pub open spec fn after(self, total: nat, event: MarchEvent) -> Result<MarchState, PricingError> {
        match (self, event) {
            (MarchState::Uninitialized, MarchEvent::Singular) => Err(PricingError::SingularSystem),
            (MarchState::Stepping(k), MarchEvent::NonFinite(node)) => Err(
                PricingError::NumericalInstability { step: k, node },
            ),
            (MarchState::Stepping(k), _) => if k >= total {
                Ok(MarchState::Complete)
            } else {
                Ok(MarchState::Stepping((k + 1) as usize))
            },
            _ => Ok(MarchState::Stepping(1)),
        }
    }

    /// Takes the transition on `event`. A failure ends the march with its
    /// error: no partial result is ever reached.
    pub fn next(self, total: usize, event: MarchEvent) -> (r: Result<MarchState, PricingError>)
        requires
            total >= 1,
            self.wf(total as nat),
            self.accepts(event),
        ensures
            r == self.after(total as nat, event),
            r matches Ok(s) ==> s.wf(total as nat),
    {
        match (self, event) {
            (MarchState::Uninitialized, MarchEvent::Singular) => Err(PricingError::SingularSystem),
            (MarchState::Stepping(k), MarchEvent::NonFinite(node)) => Err(
                PricingError::NumericalInstability { step: k, node },
            ),
            (MarchState::Stepping(k), _) => if k >= total {
                Ok(MarchState::Complete)
            } else {
                Ok(MarchState::Stepping(k + 1))
            },
            _ => Ok(MarchState::Stepping(1)),
        }
    }
}

/// The state reached from `Uninitialized` after a successful factorization
/// and `solved` successful steps.
pub open spec fn state_after_solves(total: nat, solved: nat) -> Result<MarchState, PricingError>
    decreases solved,
{
    if solved == 0 {
        MarchState::Uninitialized.after(total, MarchEvent::Factorized)
    } else {
        match state_after_solves(total, (solved - 1) as nat) {
            Ok(s) => s.after(total, MarchEvent::Solved),
            Err(e) => Err(e),
        }
    }
}

/// A march that meets no failure visits the steps `1, 2, ..., total` in
/// order, one at a time, and is complete exactly after the last of them.
pub proof fn lemma_march_is_sequential(total: nat, solved: nat)
    requires
        1 <= total <= usize::MAX,
        solved <= total,
    ensures
        solved < total ==> state_after_solves(total, solved) == Ok::<MarchState, PricingError>(
            MarchState::Stepping((solved + 1) as usize),
        ),
        solved == total ==> state_after_solves(total, solved) == Ok::<MarchState, PricingError>(
            MarchState::Complete,
        ),
    decreases solved,
{
    if solved > 0 {
        lemma_march_is_sequential(total, (solved - 1) as nat);
    }
}

} // verus!
