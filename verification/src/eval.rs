use vstd::prelude::*;
use vstd::std_specs::convert::FromSpecImpl;
use crate::cache::Cache;
use crate::traits::Evaluator;

verus! {

/// Implements cached (lazy) evaluation of copyable types via closures. Use
/// `RcEval` to evaluate types that are not `Copy`.
///
/// The producer runs when the cache slot is empty. Its output stays in the
/// slot and is handed out by copy until `flush` clears the slot.
#[verifier::reject_recursive_types(Out)]
pub struct Eval<Out: Copy, Cl: Fn() -> Out> {
    closure: Cl,
    last: Option<Out>,
    runs: Ghost<nat>,
}

impl<Out: Copy, Cl: Fn() -> Out> View for Eval<Out, Cl> {
    type V = Cache<Out>;

    closed spec fn view(&self) -> Cache<Out> {
        Cache { slot: self.last, invocations: self.runs@ }
    }
}

impl<Out: Copy, Cl: Fn() -> Out> Eval<Out, Cl> {
    /// A cached value is one that the producer returned, from a call that it
    /// accepted.
    #[verifier::type_invariant]
    spec fn cached_was_produced(&self) -> bool {
        self.last matches Some(cached) ==> {
            &&& self.closure.requires(())
            &&& self.closure.ensures((), cached)
        }
    }

    /// The wrapped producer.
    pub closed spec fn producer(&self) -> Cl {
        self.closure
    }

    /// Whether `eval` may be called: the producer accepts being called, or
    /// the slot is populated and the producer will not be called.
    pub open spec fn evaluable(&self) -> bool {
        self@.slot is None ==> self.producer().requires(())
    }

    /// Whether one evaluation may take the evaluator from `self` to `next`
    /// while returning `out`: the producer stays, and the cache takes one
    /// step of [`Cache::evaluates`].
    pub open spec fn evaluates_to(&self, next: &Self, out: Out) -> bool {
        &&& next.producer() == self.producer()
        &&& self@.evaluates(self.producer(), next@, out)
    }

    /// Creates the evaluator using the specified closure.
    ///
    /// Does the same as the `From` implementation.
    #[inline]
    #[must_use]
    pub fn new(closure: Cl) -> (evaluator: Self)
        ensures
            evaluator.producer() == closure,
            evaluator@ == Cache::<Out>::empty(),
    {
        Self { closure, last: None, runs: Ghost(0) }
    }

    /// Invalidates the cached value, if there is one. If the evaluator was
    /// never used after creation or was recently flushed, does nothing. An
    /// evaluator that was evaluable stays so.
    #[inline]
    pub fn flush(&mut self)
        ensures
            final(self).producer() == old(self).producer(),
            final(self)@ == old(self)@.flushed(),
            old(self)@.slot is None ==> *final(self) == *old(self),
            old(self).evaluable() ==> final(self).evaluable(),
    {
        proof {
            use_type_invariant(&*self);
        }
        self.last = None;
    }

    /// Returns a reference to the underlying closure.
    ///
    /// The closure can be cloned, or even copied, through this reference.
    #[inline]
    #[must_use]
    pub fn closure(&self) -> (closure: &Cl)
        ensures
            *closure == self.producer(),
    {
        &self.closure
    }

    /// Evaluates and returns the result: the cached value if there is one,
    /// else what one run of the producer returns, which is then cached.
    /// Either way the result is a value that the producer returned. An
    /// evaluator whose slot is populated is left as it was.
    ///
    /// [`Evaluator::eval`] forwards to this method.
    pub fn eval(&mut self) -> (out: Out)
        requires
            old(self).evaluable(),
        ensures
            old(self).evaluates_to(final(self), out),
            old(self).producer().ensures((), out),
            old(self)@.slot is Some ==> *final(self) == *old(self),
    {
        proof {
            use_type_invariant(&*self);
        }
        match self.last {
            Some(cached) => cached,
            None => {
                let fresh = (self.closure)();
                self.last = Some(fresh);
                proof {
                    self.runs@ = self.runs@ + 1;
                }
                fresh
            },
        }
    }
}

impl<Out: Copy, Cl: Fn() -> Out> From<Cl> for Eval<Out, Cl> {
    /// Constructs the evaluator from the specified closure.
    #[inline]
    fn from(closure: Cl) -> (evaluator: Self)
        ensures
            evaluator.producer() == closure,
            evaluator@ == Cache::<Out>::empty(),
    {
        Self { closure, last: None, runs: Ghost(0) }
    }
}

impl<Out: Copy, Cl: Fn() -> Out> FromSpecImpl<Cl> for Eval<Out, Cl> {
    open spec fn obeys_from_spec() -> bool {
        true
    }

    closed spec fn from_spec(closure: Cl) -> Self {
        Eval { closure, last: None, runs: Ghost(0) }
    }
}

// Each item forwards to the evaluator's own item of that name, which method
// lookup finds before the trait's.
impl<Out: Copy, Cl: Fn() -> Out> Evaluator for Eval<Out, Cl> {
    type Output = Out;

    open spec fn evaluable(&self) -> bool {
        self.evaluable()
    }

    open spec fn evaluates_to(&self, next: &Self, out: Out) -> bool {
        self.evaluates_to(next, out)
    }

    fn eval(&mut self) -> (out: Out) {
        self.eval()
    }
}

} // verus!
