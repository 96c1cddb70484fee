//! The rerun controller: after a build, run it again or stop?

use crate::signal::{contains_marker, SignalMatcher};
use vstd::prelude::*;

verus! {

/// The number of reruns granted when none is configured.
pub const DEFAULT_BUDGET: u8 = 3;

/// What follows one invocation of the build.
#[derive(Debug, Clone, Copy, PartialEq, Eq, Structural)]
pub enum ChainStep {
    /// Invoke the build again, with this budget left.
    Rerun(u8),
    /// The chain ends with this invocation.
    Finished,
}

/// The rule of the controller. With no budget left the chain ends whatever
/// the output holds. Otherwise it goes on, one unit of budget poorer, if and
/// only if the output holds the marker.
pub open spec fn chain_step(budget: u8, output: Seq<u8>) -> ChainStep {
    if budget != 0 && contains_marker(output) {
        ChainStep::Rerun((budget - 1) as u8)
    } else {
        ChainStep::Finished
    }
}

/// Decides what follows an invocation that was made with `budget` reruns
/// left and printed `output`. The output is not looked at once the budget is
/// spent.
pub fn after_build(matcher: &SignalMatcher, budget: u8, output: &[u8]) -> (r: ChainStep)
    ensures
        r == chain_step(budget, output@),
{
    if budget != 0 && matcher.signals_rerun(output) {
        ChainStep::Rerun(budget - 1)
    } else {
        ChainStep::Finished
    }
}

/// How many invocations a chain makes that starts with `budget` at
/// invocation number `from`, where invocation number `k` prints
/// `output_of(k)`.
pub open spec fn chain_length(budget: u8, output_of: spec_fn(nat) -> Seq<u8>, from: nat) -> nat
    decreases budget,
{
    match chain_step(budget, output_of(from)) {
        ChainStep::Finished => 1,
        ChainStep::Rerun(rest) => 1 + chain_length(rest, output_of, from + 1),
    }
}

/// A chain makes at least one invocation and at most one more than its
/// budget.
pub proof fn chain_is_bounded(budget: u8, output_of: spec_fn(nat) -> Seq<u8>, from: nat)
    ensures
        1 <= chain_length(budget, output_of, from) <= budget + 1,
    decreases budget,
{
    if let ChainStep::Rerun(rest) = chain_step(budget, output_of(from)) {
        chain_is_bounded(rest, output_of, from + 1);
    }
}

/// When every output holds the marker, the chain spends its whole budget: it
/// makes exactly one invocation more than the budget, and stops.
pub proof fn always_signalling_chain_spends_budget(
    budget: u8,
    output_of: spec_fn(nat) -> Seq<u8>,
    from: nat,
)
    requires
        forall|k: nat| from <= k ==> contains_marker(#[trigger] output_of(k)),
    ensures
        chain_length(budget, output_of, from) == budget + 1,
    decreases budget,
{
    if budget != 0 {
        always_signalling_chain_spends_budget((budget - 1) as u8, output_of, from + 1);
    }
}

/// When the first output does not hold the marker, the chain is that one
/// invocation.
pub proof fn silent_first_output_ends_chain(
    budget: u8,
    output_of: spec_fn(nat) -> Seq<u8>,
    from: nat,
)
    requires
        !contains_marker(output_of(from)),
    ensures
        chain_length(budget, output_of, from) == 1,
{
}

/// Without budget the chain is one invocation, whatever it prints.
pub proof fn no_budget_means_one_invocation(output_of: spec_fn(nat) -> Seq<u8>, from: nat)
    ensures
        chain_length(0, output_of, from) == 1,
{
}

} // verus!
