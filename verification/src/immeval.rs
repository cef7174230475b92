use vstd::prelude::*;
use vstd::std_specs::convert::FromSpecImpl;
use crate::traits::Evaluator;

verus! {

/// Implements immediate evaluation via closures.
///
/// This type of evaluator performs no caching whatsoever: every evaluation
/// runs the producer.
#[verifier::reject_recursive_types(Out)]
pub struct ImmEval<Out, Cl: Fn() -> Out> {
    closure: Cl,
    runs: Ghost<nat>,
    _phantom: core::marker::PhantomData<Out>,
}

impl<Out, Cl: Fn() -> Out> ImmEval<Out, Cl> {
    /// The wrapped producer.
    pub closed spec fn producer(&self) -> Cl {
        self.closure
    }

    /// How many times the evaluator has run its producer since construction.
    pub closed spec fn invocations(&self) -> nat {
        self.runs@
    }

    /// Whether `eval` may be called: the producer accepts being called.
    pub open spec fn evaluable(&self) -> bool {
        self.producer().requires(())
    }

    /// Whether one evaluation may take the evaluator from `self` to `next`
    /// while returning `out`: the producer runs once, and `out` is what it
    /// returned.
    pub open spec fn evaluates_to(&self, next: &Self, out: Out) -> bool {
        &&& next.producer() == self.producer()
        &&& next.invocations() == self.invocations() + 1
        &&& self.producer().ensures((), out)
    }

    /// Creates the evaluator using the specified closure.
    ///
    /// Does the same as the `From` implementation.
    #[inline]
    #[must_use]
    pub fn new(closure: Cl) -> (evaluator: Self)
        ensures
            evaluator.producer() == closure,
            evaluator.invocations() == 0,
    {
        Self { closure, runs: Ghost(0), _phantom: core::marker::PhantomData }
    }

    /// Returns a reference to the underlying closure.
    ///
    /// The closure can be cloned, or even copied, through this reference.
    #[inline]
    #[must_use]
    pub fn closure(&self) -> (closure: &Cl)
        ensures
            *closure == self.producer(),
    {
        &self.closure
    }

    /// Evaluates and returns the result: runs the producer, once.
    ///
    /// [`Evaluator::eval`] forwards to this method.
    pub fn eval(&mut self) -> (out: Out)
        requires
            old(self).evaluable(),
        ensures
            old(self).evaluates_to(final(self), out),
    {
        let out = (self.closure)();
        proof {
            self.runs@ = self.runs@ + 1;
        }
        out
    }
}

impl<Out, Cl: Fn() -> Out> From<Cl> for ImmEval<Out, Cl> {
    /// Constructs the evaluator from the specified closure.
    #[inline]
    fn from(closure: Cl) -> (evaluator: Self)
        ensures
            evaluator.producer() == closure,
            evaluator.invocations() == 0,
    {
        Self { closure, runs: Ghost(0), _phantom: core::marker::PhantomData }
    }
}

impl<Out, Cl: Fn() -> Out> FromSpecImpl<Cl> for ImmEval<Out, Cl> {
    open spec fn obeys_from_spec() -> bool {
        true
    }

    closed spec fn from_spec(closure: Cl) -> Self {
        ImmEval { closure, runs: Ghost(0), _phantom: core::marker::PhantomData }
    }
}

// Each item forwards to the evaluator's own item of that name, which method
// lookup finds before the trait's.
impl<Out, Cl: Fn() -> Out> Evaluator for ImmEval<Out, Cl> {
    type Output = Out;

    open spec fn evaluable(&self) -> bool {
        self.evaluable()
    }

    open spec fn evaluates_to(&self, next: &Self, out: Out) -> bool {
        self.evaluates_to(next, out)
    }

    fn eval(&mut self) -> (out: Out) {
        self.eval()
    }
}

/// However many evaluations follow one another, the producer runs exactly
/// that many times, and each evaluation returns what its own run produced.
///
/// `states[i]` is the evaluator before evaluation `i` and `states[i + 1]` the
/// evaluator after it; `outs[i]` is what that evaluation returned.
pub proof fn lemma_every_evaluation_runs_producer<Out, Cl: Fn() -> Out>(
    states: Seq<ImmEval<Out, Cl>>,
    outs: Seq<Out>,
)
    requires
        states.len() == outs.len() + 1,
        forall|i: int|
            0 <= i < outs.len() ==> (#[trigger] states[i]).evaluates_to(&states[i + 1], outs[i]),
    ensures
        states.last().invocations() == states[0].invocations() + outs.len(),
        states.last().producer() == states[0].producer(),
        forall|i: int|
            0 <= i < outs.len() ==> states[0].producer().ensures((), #[trigger] outs[i]),
    decreases outs.len(),
{
    if outs.len() > 0 {
        let last: int = outs.len() - 1;
        let prior_outs = outs.drop_last();
        lemma_every_evaluation_runs_producer(states.drop_last(), prior_outs);
        assert forall|i: int| 0 <= i < outs.len() implies states[0].producer().ensures(
            (),
            #[trigger] outs[i],
        ) by {
            if i < last {
                assert(prior_outs[i] == outs[i]);
            }
        }
    }
}

} // verus!
