//! The two interfaces of evaluation.
//!
//! Each trait states its contract over two spec functions that the
//! implementing type defines: when evaluation may be called, and which steps
//! it may take. Code that is generic over a trait reasons with these.
//!
//! The evaluators that wrap a closure also have `evaluable`, `evaluates_to`,
//! `eval` and `rc_eval` as items of their own, with the same contract and a
//! result of type `Out`. Code that builds an evaluator from a closure literal
//! uses those: for a type that holds a closure's anonymous type, Verus
//! neither unfolds a trait's spec functions nor learns what the trait's
//! `Output` is. The trait's items forward to the evaluator's own.

use std::rc::Rc;
use vstd::prelude::*;

verus! {

/// Evaluation that hands out an owned value: immediate evaluation for any
/// type, cached (lazy) evaluation for types that implement [`Copy`].
///
/// Evaluation takes `&mut self`: a caching evaluator stores the output inside
/// itself, and exclusive access is what lets a contract speak of the state
/// before and after.
pub trait Evaluator {
    /// The type that the evaluator evaluates to.
    type Output;

    /// Whether `eval` may be called in this state.
    spec fn evaluable(&self) -> bool;

    /// Whether one call of `eval` may take the evaluator from `self` to
    /// `next` while returning `out`.
    spec fn evaluates_to(&self, next: &Self, out: Self::Output) -> bool;

    /// Evaluates and returns the result. An evaluator that was evaluable
    /// stays so.
    fn eval(&mut self) -> (out: Self::Output)
        requires
            old(self).evaluable(),
        ensures
            old(self).evaluates_to(final(self), out),
            final(self).evaluable(),
    ;
}

/// Cached (lazy) evaluation that hands out a shared handle, for types that
/// do not implement [`Copy`].
pub trait RcEvaluator {
    /// The type that the evaluator evaluates to.
    type Output;

    /// Whether `rc_eval` may be called in this state.
    spec fn rc_evaluable(&self) -> bool;

    /// Whether one call of `rc_eval` may take the evaluator from `self` to
    /// `next` while returning `out`.
    spec fn rc_evaluates_to(&self, next: &Self, out: Rc<Self::Output>) -> bool;

    /// Evaluates and returns a reference-counted handle to the result. An
    /// evaluator that was evaluable stays so.
    fn rc_eval(&mut self) -> (out: Rc<Self::Output>)
        requires
            old(self).rc_evaluable(),
        ensures
            old(self).rc_evaluates_to(final(self), out),
            final(self).rc_evaluable(),
    ;
}

} // verus!
