//! Memoized one-time plugin selection.
//!
//! A [`PluginSelector`] is a single-assignment cell with cache-on-success
//! semantics. Resolution itself (a registry query) happens outside this
//! type; callers hand each attempt's outcome to [`PluginSelector::complete`].
//! The first successful outcome is retained for the selector's whole
//! lifetime and handed back to every later (or racing) caller, even one
//! that raced with its own redundant computation; a failed outcome is never
//! retained, so the next caller retries resolution in full.
//!
//! This models the concurrency contract of the gateway: when several
//! first-time callers race, each may run its own resolution, but only the
//! first success is kept, and every caller observes that same identifier.

use vstd::prelude::*;

use crate::errors::DomainError;

verus! {

/// Single-assignment memo cell for the resolved plugin instance identifier.
pub struct PluginSelector {
    pub resolved: Option<String>,
}

/// One step of the selector: given the currently memoized identifier (as a
/// sequence of characters) and the outcome of a resolution attempt, the new
/// memoized identifier. A present memo is terminal; a failure leaves the
/// memo empty.
pub open spec fn spec_selector_after(
    memo: Option<Seq<char>>,
    outcome: Result<Seq<char>, DomainError>,
) -> Option<Seq<char>> {
    match memo {
        Option::Some(id) => Option::Some(id),
        Option::None => match outcome {
            Ok(id) => Option::Some(id),
            Err(_) => Option::None,
        },
    }
}

/// What the same step returns to the caller: the memoized identifier if one
/// exists (the racing outcome is discarded), otherwise the attempt's own
/// outcome.
pub open spec fn spec_selector_result(
    memo: Option<Seq<char>>,
    outcome: Result<Seq<char>, DomainError>,
) -> Result<Seq<char>, DomainError> {
    match memo {
        Option::Some(id) => Ok(id),
        Option::None => outcome,
    }
}

impl PluginSelector {
    /// The memoized identifier, as a sequence of characters.
    pub open spec fn memo(&self) -> Option<Seq<char>> {
        match self.resolved {
            Option::Some(ref id) => Option::Some(id@),
            Option::None => Option::None,
        }
    }

    /// Creates an unresolved selector.
    pub fn new() -> (s: Self)
        ensures
            s.memo() is None,
    {
        PluginSelector { resolved: Option::None }
    }

    /// The memoized identifier, if resolution has already succeeded. A
    /// caller that finds `Some` must not start a new resolution.
    pub fn cached(&self) -> (r: Option<String>)
        ensures
            match r {
                Option::Some(id) => self.memo() == Option::Some(id@),
                Option::None => self.memo() is None,
            },
    {
        match self.resolved {
            Option::Some(ref id) => Option::Some(id.clone()),
            Option::None => Option::None,
        }
    }

    /// Records the outcome of a resolution attempt and returns what the
    /// caller observes. The first success is memoized and wins every later
    /// race; a failure is never memoized.
    pub fn complete(&mut self, outcome: Result<String, DomainError>) -> (r: Result<
        String,
        DomainError,
    >)
        ensures
            final(self).memo() == spec_selector_after(
                old(self).memo(),
                spec_outcome_view(&outcome),
            ),
            spec_outcome_view(&r) == spec_selector_result(
                old(self).memo(),
                spec_outcome_view(&outcome),
            ),
    {
        match self.resolved {
            Option::Some(ref id) => Ok(id.clone()),
            Option::None => match outcome {
                Ok(id) => {
                    self.resolved = Option::Some(id.clone());
                    Ok(id)
                },
                Err(e) => Err(e),
            },
        }
    }
}

/// A resolution outcome with its identifier abstracted to a sequence of
/// characters, so that selector steps can be reasoned about purely.
pub open spec fn spec_outcome_view(outcome: &Result<String, DomainError>) -> Result<
    Seq<char>,
    DomainError,
> {
    match outcome {
        Ok(id) => Ok(id@),
        Err(e) => Err(*e),
    }
}

/// The memo after a whole run of resolution attempts, applied in order.
pub open spec fn spec_selector_after_run(
    memo: Option<Seq<char>>,
    outcomes: Seq<Result<Seq<char>, DomainError>>,
) -> Option<Seq<char>>
    decreases outcomes.len(),
{
    if outcomes.len() == 0 {
        memo
    } else {
        spec_selector_after_run(spec_selector_after(memo, outcomes[0]), outcomes.skip(1))
    }
}

/// What each caller in such a run observes.
pub open spec fn spec_selector_results(
    memo: Option<Seq<char>>,
    outcomes: Seq<Result<Seq<char>, DomainError>>,
) -> Seq<Result<Seq<char>, DomainError>>
    decreases outcomes.len(),
{
    if outcomes.len() == 0 {
        Seq::empty()
    } else {
        seq![spec_selector_result(memo, outcomes[0])] + spec_selector_results(
            spec_selector_after(memo, outcomes[0]),
            outcomes.skip(1),
        )
    }
}

/// A run of attempts produces one observation per attempt.
proof fn lemma_results_len(memo: Option<Seq<char>>, outcomes: Seq<Result<Seq<char>, DomainError>>)
    ensures
        spec_selector_results(memo, outcomes).len() == outcomes.len(),
    decreases outcomes.len(),
{
    if outcomes.len() > 0 {
        lemma_results_len(spec_selector_after(memo, outcomes[0]), outcomes.skip(1));
    }
}

/// Idempotent resolution: once a first attempt on an unresolved selector
/// succeeds with `id`, every caller of any later run — whatever its own
/// racing outcome — observes exactly `Ok(id)`, and the memo never moves
/// away from `id`.
pub proof fn lemma_first_success_wins(id: Seq<char>, outcomes: Seq<Result<Seq<char>, DomainError>>)
    ensures
        spec_selector_after(Option::None, Ok(id)) == Option::Some(id),
        spec_selector_after_run(Option::Some(id), outcomes) == Option::Some(id),
        forall|i: int|
            0 <= i < outcomes.len() ==> #[trigger] spec_selector_results(
                Option::Some(id),
                outcomes,
            )[i] == Ok::<Seq<char>, DomainError>(id),
    decreases outcomes.len(),
{
    if outcomes.len() > 0 {
        lemma_first_success_wins(id, outcomes.skip(1));
        lemma_results_len(Option::Some(id), outcomes.skip(1));
        let r0 = spec_selector_result(Option::Some(id), outcomes[0]);
        let rest = spec_selector_results(Option::Some(id), outcomes.skip(1));
        assert(spec_selector_results(Option::Some(id), outcomes) == seq![r0] + rest);
        assert forall|i: int| 0 <= i < outcomes.len() implies #[trigger] spec_selector_results(
            Option::Some(id),
            outcomes,
        )[i] == Ok::<Seq<char>, DomainError>(id) by {
            if i == 0 {
                assert((seq![r0] + rest)[0] == r0);
            } else {
                assert((seq![r0] + rest)[i] == rest[i - 1]);
            }
        }
    }
}

/// Failure is not cached: a failed attempt on an unresolved selector hands
/// the failure back and leaves the selector unresolved, so the next
/// attempt runs resolution in full — and, if it succeeds, is memoized.
pub proof fn lemma_failure_not_cached(e: DomainError, id: Seq<char>)
    ensures
        spec_selector_result(Option::None, Err(e)) == Err::<Seq<char>, DomainError>(e),
        spec_selector_after(Option::None, Err(e)) is None,
        spec_selector_result(Option::None, Ok(id)) == Ok::<Seq<char>, DomainError>(id),
        spec_selector_after(Option::None, Ok(id)) == Option::Some(id),
{
}

} // verus!
