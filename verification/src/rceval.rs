use std::rc::Rc;
use vstd::prelude::*;
use vstd::std_specs::convert::FromSpecImpl;
use crate::cache::Cache;
use crate::traits::{Evaluator, RcEvaluator};

verus! {

/// Implements cached (lazy) evaluation of clonable **and** non-clonable types
/// via closures.
///
/// The output lives behind an `Rc` in the cache slot, and `rc_eval` hands out
/// handles to it: no evaluation copies the output itself. `Rc` counts its
/// handles without synchronization, so an `RcEval` stays on one thread.
#[verifier::reject_recursive_types(Out)]
pub struct RcEval<Out, Cl: Fn() -> Out> {
    closure: Cl,
    last: Option<Rc<Out>>,
    runs: Ghost<nat>,
}

/// `Rc::clone`: another handle to the allocation behind `handle`. Nothing is
/// copied, so the value behind the new handle is the value behind the old.
#[verifier::external_body]
fn share<T>(handle: &Rc<T>) -> (shared: Rc<T>)
    ensures
        shared == *handle,
{
    Rc::clone(handle)
}

impl<Out, Cl: Fn() -> Out> View for RcEval<Out, Cl> {
    type V = Cache<Out>;

    closed spec fn view(&self) -> Cache<Out> {
        Cache {
            slot: match self.last {
                Some(handle) => Some(*handle),
                None => None,
            },
            invocations: self.runs@,
        }
    }
}

impl<Out, Cl: Fn() -> Out> RcEval<Out, Cl> {
    /// A cached value is one that the producer returned, from a call that it
    /// accepted.
    #[verifier::type_invariant]
    spec fn cached_was_produced(&self) -> bool {
        self.last matches Some(handle) ==> {
            &&& self.closure.requires(())
            &&& self.closure.ensures((), *handle)
        }
    }

    /// The wrapped producer.
    pub closed spec fn producer(&self) -> Cl {
        self.closure
    }

    /// Whether `rc_eval` and `eval` may be called: the producer accepts being
    /// called, or the slot is populated and the producer will not be called.
    pub open spec fn evaluable(&self) -> bool {
        self@.slot is None ==> self.producer().requires(())
    }

    /// Whether one evaluation may take the evaluator from `self` to `next`
    /// while returning `out`, or a handle to `out`: the producer stays, and
    /// the cache takes one step of [`Cache::evaluates`].
    pub open spec fn evaluates_to(&self, next: &Self, out: Out) -> bool {
        &&& next.producer() == self.producer()
        &&& self@.evaluates(self.producer(), next@, out)
    }

    /// Disowns the cached value, if there is one, destroying it if there are
    /// no other owners. If the evaluator was never used after creation or was
    /// recently flushed, does nothing. An evaluator that was evaluable stays
    /// so.
    #[inline]
    pub fn flush(&mut self)
        ensures
            final(self).producer() == old(self).producer(),
            final(self)@ == old(self)@.flushed(),
            old(self)@.slot is None ==> *final(self) == *old(self),
            old(self).evaluable() ==> final(self).evaluable(),
    {
        proof {
            use_type_invariant(&*self);
        }
        self.last = None;
    }

    /// Returns a reference to the underlying closure.
    ///
    /// The closure can be cloned, or even copied, through this reference.
    #[inline]
    #[must_use]
    pub fn closure(&self) -> (closure: &Cl)
        ensures
            *closure == self.producer(),
    {
        &self.closure
    }

    /// Evaluates and returns an `Rc` to the result: a handle to the cached
    /// instance if there is one, else to a new instance that holds what one
    /// run of the producer returns, and that is then cached. Either way the
    /// value behind the handle is one that the producer returned. An
    /// evaluator whose slot is populated is left as it was.
    ///
    /// [`RcEvaluator::rc_eval`] forwards to this method.
    pub fn rc_eval(&mut self) -> (out: Rc<Out>)
        requires
            old(self).evaluable(),
        ensures
            old(self).evaluates_to(final(self), *out),
            old(self).producer().ensures((), *out),
            old(self)@.slot is Some ==> *final(self) == *old(self),
    {
        proof {
            use_type_invariant(&*self);
        }
        match &self.last {
            Some(handle) => share(handle),
            None => {
                let handle = Rc::new((self.closure)());
                let out = share(&handle);
                self.last = Some(handle);
                proof {
                    self.runs@ = self.runs@ + 1;
                }
                out
            },
        }
    }
}

// The `Copy` bound is needed here: a value that is not `Copy` cannot be moved
// out of an `Rc`.
impl<Out: Copy, Cl: Fn() -> Out> RcEval<Out, Cl> {
    /// Evaluates and returns the result: a copy of the cached value if there
    /// is one, else what one run of the producer returns, which is then
    /// cached. Either way the result is a value that the producer returned.
    /// An evaluator whose slot is populated is left as it was.
    ///
    /// [`Evaluator::eval`] forwards to this method.
    pub fn eval(&mut self) -> (out: Out)
        requires
            old(self).evaluable(),
        ensures
            old(self).evaluates_to(final(self), out),
            old(self).producer().ensures((), out),
            old(self)@.slot is Some ==> *final(self) == *old(self),
    {
        proof {
            use_type_invariant(&*self);
        }
        match &self.last {
            Some(handle) => **handle,
            None => {
                let fresh = (self.closure)();
                self.last = Some(Rc::new(fresh));
                proof {
                    self.runs@ = self.runs@ + 1;
                }
                fresh
            },
        }
    }
}

impl<Out, Cl: Fn() -> Out> From<Cl> for RcEval<Out, Cl> {
    /// Constructs the evaluator from the specified closure.
    fn from(closure: Cl) -> (evaluator: Self)
        ensures
            evaluator.producer() == closure,
            evaluator@ == Cache::<Out>::empty(),
    {
        RcEval { closure, last: None, runs: Ghost(0) }
    }
}

impl<Out, Cl: Fn() -> Out> FromSpecImpl<Cl> for RcEval<Out, Cl> {
    open spec fn obeys_from_spec() -> bool {
        true
    }

    closed spec fn from_spec(closure: Cl) -> Self {
        RcEval { closure, last: None, runs: Ghost(0) }
    }
}

// Each item forwards to the evaluator's own item of that name, which method
// lookup finds before the trait's.
impl<Out, Cl: Fn() -> Out> RcEvaluator for RcEval<Out, Cl> {
    type Output = Out;

    open spec fn rc_evaluable(&self) -> bool {
        self.evaluable()
    }

    open spec fn rc_evaluates_to(&self, next: &Self, out: Rc<Out>) -> bool {
        self.evaluates_to(next, *out)
    }

    fn rc_eval(&mut self) -> (out: Rc<Out>) {
        self.rc_eval()
    }
}

// Each item forwards to the evaluator's own item of that name, which method
// lookup finds before the trait's.
impl<Out: Copy, Cl: Fn() -> Out> Evaluator for RcEval<Out, Cl> {
    type Output = Out;

    open spec fn evaluable(&self) -> bool {
        self.evaluable()
    }

    open spec fn evaluates_to(&self, next: &Self, out: Out) -> bool {
        self.evaluates_to(next, out)
    }

    fn eval(&mut self) -> (out: Out) {
        self.eval()
    }
}

} // verus!
