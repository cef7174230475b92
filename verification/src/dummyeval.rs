use vstd::prelude::*;
use vstd::std_specs::convert::FromSpecImpl;
use crate::traits::Evaluator;

verus! {

/// Implements dummy evaluation of clonable types: every time `eval` is
/// called, a clone of one fixed value is returned. Nothing is produced and
/// nothing is cached.
pub struct DummyEval<Out> {
    value: Out,
}

impl<Out> View for DummyEval<Out> {
    type V = Out;

    /// The fixed value.
    closed spec fn view(&self) -> Out {
        self.value
    }
}

impl<Out> DummyEval<Out> {
    /// Consumes the evaluator and returns the underlying value.
    pub fn into_inner(self) -> (value: Out)
        ensures
            value == self@,
    {
        self.value
    }
}

impl<Out: Clone> DummyEval<Out> {
    /// Evaluates and returns the result: a clone of the fixed value. **This
    /// includes the overhead of cloning the value, because the fixed value
    /// must be preserved.**
    ///
    /// Nothing is cached and nothing changes, so a shared borrow is enough.
    pub fn eval(&self) -> (out: Out)
        ensures
            cloned(self@, out),
    {
        self.value.clone()
    }
}

impl<Out> From<Out> for DummyEval<Out> {
    /// Constructs the evaluator from the specified dummy value.
    fn from(value: Out) -> (evaluator: Self)
        ensures
            evaluator@ == value,
    {
        Self { value }
    }
}

impl<Out> FromSpecImpl<Out> for DummyEval<Out> {
    open spec fn obeys_from_spec() -> bool {
        true
    }

    closed spec fn from_spec(value: Out) -> Self {
        DummyEval { value }
    }
}

impl<Out: Clone> Evaluator for DummyEval<Out> {
    type Output = Out;

    /// A dummy evaluator may always be evaluated.
    open spec fn evaluable(&self) -> bool {
        true
    }

    /// The evaluator stays as it is, and `out` is a clone of the fixed value.
    open spec fn evaluates_to(&self, next: &Self, out: Out) -> bool {
        &&& *next == *self
        &&& cloned(self@, out)
    }

    fn eval(&mut self) -> (out: Out) {
        DummyEval::eval(self)
    }
}

/// However many evaluations follow one another, the evaluator never changes,
/// and each evaluation returns a clone of the value that it was made from.
///
/// `states[i]` is the evaluator before evaluation `i` and `states[i + 1]` the
/// evaluator after it; `outs[i]` is what that evaluation returned.
pub proof fn lemma_every_evaluation_clones_value<Out: Clone>(
    states: Seq<DummyEval<Out>>,
    outs: Seq<Out>,
)
    requires
        states.len() == outs.len() + 1,
        forall|i: int|
            0 <= i < outs.len() ==> (#[trigger] states[i]).evaluates_to(&states[i + 1], outs[i]),
    ensures
        forall|i: int| 0 <= i < states.len() ==> #[trigger] states[i] == states[0],
        forall|i: int| 0 <= i < outs.len() ==> cloned(states[0]@, #[trigger] outs[i]),
    decreases outs.len(),
{
    if outs.len() > 0 {
        let last: int = outs.len() - 1;
        let prior_states = states.drop_last();
        let prior_outs = outs.drop_last();
        lemma_every_evaluation_clones_value(prior_states, prior_outs);
        assert(prior_states[last] == prior_states[0]);
        assert forall|i: int| 0 <= i < states.len() implies #[trigger] states[i] == states[0] by {
            if i <= last {
                assert(prior_states[i] == prior_states[0]);
            }
        }
        assert forall|i: int| 0 <= i < outs.len() implies cloned(states[0]@, #[trigger] outs[i]) by {
            if i < last {
                assert(prior_outs[i] == outs[i]);
            }
        }
    }
}

} // verus!
