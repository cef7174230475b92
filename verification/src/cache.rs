//! The model that the contracts of the caching evaluators speak of: one
//! cache slot, and a count of how often the producer has run.

use vstd::prelude::*;

verus! {

/// What a caching evaluator holds besides its producer.
pub ghost struct Cache<Out> {
    /// The cached output; `None` while nothing is cached.
    pub slot: Option<Out>,
    /// How many times the evaluator has run its producer since construction.
    pub invocations: nat,
}

/// One operation on a caching evaluator, as its cache sees it.
pub ghost enum Step<Out> {
    /// An evaluation that returned this output.
    Evaluate(Out),
    /// An invalidation.
    Flush,
}

impl<Out> Cache<Out> {
    /// The cache of a newly constructed evaluator.
    pub open spec fn empty() -> Self {
        Cache { slot: None, invocations: 0 }
    }

    /// The cache after invalidation: the slot is cleared, the count stays.
    pub open spec fn flushed(self) -> Self {
        Cache { slot: None, invocations: self.invocations }
    }

    /// Whether one evaluation with `producer` may take the cache from `self`
    /// to `next` while returning `out`.
    ///
    /// A populated slot is returned as it is and nothing changes. An empty
    /// slot is filled with what one run of the producer returned.
    pub open spec fn evaluates<Cl: Fn() -> Out>(
        self,
        producer: Cl,
        next: Self,
        out: Out,
    ) -> bool {
        match self.slot {
            Some(cached) => out == cached && next == self,
            None => {
                &&& producer.ensures((), out)
                &&& next == Cache { slot: Some(out), invocations: self.invocations + 1 }
            },
        }
    }

    /// Whether `step` may take the cache from `self` to `next`.
    pub open spec fn follows<Cl: Fn() -> Out>(
        self,
        producer: Cl,
        step: Step<Out>,
        next: Self,
    ) -> bool {
        match step {
            Step::Evaluate(out) => self.evaluates(producer, next, out),
            Step::Flush => next == self.flushed(),
        }
    }
}

/// How many of `steps` are evaluations that find the slot empty: those that
/// come right after an invalidation, and the first step if it is an
/// evaluation and the slot is empty to begin with.
pub open spec fn evaluations_on_empty_slot<Out>(
    initially_empty: bool,
    steps: Seq<Step<Out>>,
) -> nat
    decreases steps.len(),
{
    if steps.len() == 0 {
        0
    } else {
        let earlier = steps.drop_last();
        let finds_empty = if earlier.len() == 0 {
            initially_empty
        } else {
            earlier.last() is Flush
        };
        evaluations_on_empty_slot(initially_empty, earlier) + if steps.last() is Evaluate
            && finds_empty {
            1nat
        } else {
            0nat
        }
    }
}

/// An evaluation that finds the slot empty runs the producer exactly once,
/// returns what it produced and leaves that in the slot.
pub proof fn lemma_evaluation_fills_empty_slot<Out, Cl: Fn() -> Out>(
    cache: Cache<Out>,
    producer: Cl,
    next: Cache<Out>,
    out: Out,
)
    requires
        cache.slot is None,
        cache.evaluates(producer, next, out),
    ensures
        next.invocations == cache.invocations + 1,
        next.slot == Some(out),
        producer.ensures((), out),
{
}

/// Evaluations that follow one another with no invalidation between them run
/// the producer once if the slot was empty before the first of them, and not
/// at all if it was populated. Every evaluation after the first leaves the
/// cache as it found it, and all of them return what the first returned.
///
/// `states[i]` is the cache before evaluation `i` and `states[i + 1]` the
/// cache after it; `outs[i]` is what that evaluation returned.
pub proof fn lemma_evaluations_repeat_first_result<Out, Cl: Fn() -> Out>(
    producer: Cl,
    states: Seq<Cache<Out>>,
    outs: Seq<Out>,
)
    requires
        0 < outs.len(),
        states.len() == outs.len() + 1,
        forall|i: int|
            0 <= i < outs.len() ==> (#[trigger] states[i]).evaluates(
                producer,
                states[i + 1],
                outs[i],
            ),
    ensures
        states[1].slot == Some(outs[0]),
        states[0].slot is None ==> producer.ensures((), outs[0]),
        states[1].invocations == states[0].invocations + if states[0].slot is None {
            1nat
        } else {
            0nat
        },
        forall|i: int| 1 <= i < states.len() ==> #[trigger] states[i] == states[1],
        forall|i: int| 0 <= i < outs.len() ==> #[trigger] outs[i] == outs[0],
    decreases outs.len(),
{
    let last: int = outs.len() - 1;
    if last > 0 {
        let prior_states = states.drop_last();
        let prior_outs = outs.drop_last();
        lemma_evaluations_repeat_first_result(producer, prior_states, prior_outs);
        assert(prior_states[last] == prior_states[1]);
        assert forall|i: int| 1 <= i < states.len() implies #[trigger] states[i] == states[1] by {
            if i <= last {
                assert(prior_states[i] == prior_states[1]);
            }
        }
        assert forall|i: int| 0 <= i < outs.len() implies #[trigger] outs[i] == outs[0] by {
            if i < last {
                assert(prior_outs[i] == prior_outs[0]);
            }
        }
    }
}

/// Invalidating twice is invalidating once, and invalidating an empty cache
/// changes nothing. In no case does the count of invocations move.
pub proof fn lemma_flush_is_idempotent<Out>(cache: Cache<Out>)
    ensures
        cache.flushed().flushed() == cache.flushed(),
        cache.slot is None ==> cache.flushed() == cache,
        cache.flushed().invocations == cache.invocations,
{
}

/// An evaluation that follows an invalidation runs the producer exactly once
/// more, whatever the cache held and however often the producer had run
/// before, and returns what that run produced.
pub proof fn lemma_flush_restarts_cycle<Out, Cl: Fn() -> Out>(
    cache: Cache<Out>,
    producer: Cl,
    next: Cache<Out>,
    out: Out,
)
    requires
        cache.flushed().evaluates(producer, next, out),
    ensures
        next.invocations == cache.invocations + 1,
        next.slot == Some(out),
        producer.ensures((), out),
{
}

/// Through any sequence of evaluations and invalidations, the slot is
/// populated exactly when the last operation was an evaluation, and the
/// producer has run once for each evaluation that found the slot empty.
///
/// `states[i]` is the cache before operation `i` and `states[i + 1]` the
/// cache after it.
pub proof fn lemma_slot_follows_last_step<Out, Cl: Fn() -> Out>(
    producer: Cl,
    states: Seq<Cache<Out>>,
    steps: Seq<Step<Out>>,
)
    requires
        states.len() == steps.len() + 1,
        forall|i: int|
            0 <= i < steps.len() ==> (#[trigger] states[i]).follows(
                producer,
                steps[i],
                states[i + 1],
            ),
    ensures
        steps.len() > 0 ==> (states.last().slot is Some <==> steps.last() is Evaluate),
        states.last().invocations == states[0].invocations + evaluations_on_empty_slot(
            states[0].slot is None,
            steps,
        ),
    decreases steps.len(),
{
    if steps.len() > 0 {
        lemma_slot_follows_last_step(producer, states.drop_last(), steps.drop_last());
    }
}

} // verus!
