//! Interfaces and implementations for logic constructs that return values
//! without accepting arguments, either via closure captures, calculation or
//! otherwise.
//!
//! An evaluator wraps a producer, a closure that takes no arguments. The
//! variants differ in when the producer runs: [`ImmEval`] runs it on every
//! evaluation, [`Eval`] and [`RcEval`] run it when their single cache slot is
//! empty and hand out the cached output until they are flushed, and
//! [`DummyEval`] has no producer and hands out a fixed value.
//!
//! Contracts speak of a caching evaluator through its `producer()` and
//! through its view, a [`Cache`]: the slot, and a count of the times the
//! evaluator has run its producer. The count is ghost; it lets a contract say
//! how often the producer runs, and costs nothing when the program runs.
//!
//! Evaluation and invalidation take `&mut self`. The producer cannot reach
//! the evaluator while it is being evaluated, so an evaluation never starts
//! inside another one.

pub mod cache;
pub mod traits;
pub mod immeval;
pub mod eval;
pub mod rceval;
pub mod dummyeval;

pub use cache::{Cache, Step};
pub use traits::{Evaluator, RcEvaluator};
pub use immeval::ImmEval;
pub use eval::Eval;
pub use rceval::RcEval;
pub use dummyeval::DummyEval;
