use core::cell::Cell;
use std::rc::Rc;

use evaluator::{DummyEval, Eval, Evaluator, ImmEval, RcEval, RcEvaluator};

fn evaluate_through_trait<E: Evaluator>(evaluator: &mut E) -> E::Output {
    evaluator.eval()
}

fn evaluate_shared_through_trait<E: RcEvaluator>(evaluator: &mut E) -> Rc<E::Output> {
    evaluator.rc_eval()
}

#[test]
fn imm_eval_runs_producer_on_every_call() {
    for calls in [0, 1, 2, 5, 17] {
        let counter = Cell::new(0);
        let mut eval = ImmEval::new(|| {
            counter.set(counter.get() + 1);
            counter.get()
        });
        for call in 0..calls {
            assert_eq!(eval.eval(), call + 1);
        }
        assert_eq!(counter.get(), calls);
    }
}

#[test]
fn imm_eval_does_not_run_producer_before_first_call() {
    let counter = Cell::new(0);
    let eval = ImmEval::new(|| counter.set(counter.get() + 1));
    drop(eval);
    assert_eq!(counter.get(), 0);
}

#[test]
fn imm_eval_through_trait() {
    let counter = Cell::new(10);
    let mut eval = ImmEval::from(|| {
        counter.set(counter.get() + 1);
        counter.get()
    });
    assert_eq!(evaluate_through_trait(&mut eval), 11);
    assert_eq!(evaluate_through_trait(&mut eval), 12);
    assert_eq!(counter.get(), 12);
}

#[test]
fn imm_eval_closure_accessor_gives_the_producer() {
    let counter = Cell::new(0);
    let eval = ImmEval::new(|| {
        counter.set(counter.get() + 1);
        counter.get()
    });
    let producer = eval.closure();
    assert_eq!(producer(), 1);
    assert_eq!(producer(), 2);
    assert_eq!(counter.get(), 2);
}

#[test]
fn eval_first_call_runs_producer_once_later_calls_do_not() {
    let counter = Cell::new(0);
    let mut eval = Eval::new(|| {
        counter.set(counter.get() + 1);
        counter.get() * 100
    });
    assert_eq!(counter.get(), 0);
    let first = eval.eval();
    assert_eq!(first, 100);
    assert_eq!(counter.get(), 1);
    for _ in 0..10 {
        assert_eq!(eval.eval(), first);
        assert_eq!(counter.get(), 1);
    }
}

#[test]
fn eval_counter_scenario() {
    let counter = Cell::new(0);
    let mut eval = Eval::from(|| {
        counter.set(counter.get() + 1);
        counter.get()
    });
    assert_eq!(eval.eval(), 1);
    assert_eq!(eval.eval(), 1);
    eval.flush();
    assert_eq!(eval.eval(), 2);
    assert_eq!(counter.get(), 2);
}

#[test]
fn eval_flush_on_empty_cache_does_nothing() {
    let counter = Cell::new(0);
    let mut eval = Eval::new(|| {
        counter.set(counter.get() + 1);
        counter.get()
    });
    eval.flush();
    eval.flush();
    assert_eq!(counter.get(), 0);
    assert_eq!(eval.eval(), 1);
    eval.flush();
    eval.flush();
    eval.flush();
    assert_eq!(counter.get(), 1);
    assert_eq!(eval.eval(), 2);
    assert_eq!(counter.get(), 2);
}

#[test]
fn eval_flush_restarts_the_cycle_each_time() {
    let counter = Cell::new(0);
    let mut eval = Eval::new(|| {
        counter.set(counter.get() + 1);
        counter.get()
    });
    for cycle in 1..=6 {
        assert_eq!(eval.eval(), cycle);
        assert_eq!(eval.eval(), cycle);
        assert_eq!(counter.get(), cycle);
        eval.flush();
        assert_eq!(counter.get(), cycle);
    }
}

#[test]
fn eval_through_trait() {
    let counter = Cell::new(0);
    let mut eval = Eval::new(|| {
        counter.set(counter.get() + 1);
        counter.get()
    });
    assert_eq!(evaluate_through_trait(&mut eval), 1);
    assert_eq!(evaluate_through_trait(&mut eval), 1);
    assert_eq!(eval.eval(), 1);
    eval.flush();
    assert_eq!(evaluate_through_trait(&mut eval), 2);
    assert_eq!(counter.get(), 2);
}

#[test]
fn eval_closure_accessor_bypasses_the_cache() {
    let counter = Cell::new(0);
    let mut eval = Eval::new(|| {
        counter.set(counter.get() + 1);
        counter.get()
    });
    assert_eq!(eval.eval(), 1);
    assert_eq!((eval.closure())(), 2);
    assert_eq!(eval.eval(), 1);
    assert_eq!(counter.get(), 2);
}

#[test]
fn rc_eval_first_call_runs_producer_once_later_calls_do_not() {
    let counter = Cell::new(0);
    let mut eval = RcEval::from(|| {
        counter.set(counter.get() + 1);
        format!("run {}", counter.get())
    });
    assert_eq!(counter.get(), 0);
    let first = eval.rc_eval();
    assert_eq!(*first, "run 1");
    assert_eq!(counter.get(), 1);
    for _ in 0..10 {
        assert_eq!(*eval.rc_eval(), "run 1");
        assert_eq!(counter.get(), 1);
    }
}

#[test]
fn rc_eval_handles_share_one_instance() {
    let mut eval = RcEval::from(|| vec![1, 2, 3]);
    let first = eval.rc_eval();
    let second = eval.rc_eval();
    assert!(Rc::ptr_eq(&first, &second));
    assert_eq!(Rc::strong_count(&first), 3);
    drop(second);
    assert_eq!(Rc::strong_count(&first), 2);
}

#[test]
fn rc_eval_after_flush_gives_a_new_instance() {
    let mut eval = RcEval::from(|| vec![1, 2, 3]);
    let before = eval.rc_eval();
    eval.flush();
    assert_eq!(Rc::strong_count(&before), 1);
    let after = eval.rc_eval();
    assert!(!Rc::ptr_eq(&before, &after));
    assert_eq!(*before, *after);
    assert_eq!(Rc::strong_count(&before), 1);
    assert_eq!(Rc::strong_count(&after), 2);
}

#[test]
fn rc_eval_flush_destroys_an_instance_without_other_owners() {
    let mut eval = RcEval::from(|| String::from("cached"));
    let watcher = Rc::downgrade(&eval.rc_eval());
    assert!(watcher.upgrade().is_some());
    eval.flush();
    assert!(watcher.upgrade().is_none());
}

#[test]
fn rc_eval_instance_outlives_flush_and_evaluator_while_a_handle_lives() {
    let handle;
    {
        let mut eval = RcEval::from(|| String::from("kept"));
        handle = eval.rc_eval();
        eval.flush();
        assert_eq!(*handle, "kept");
    }
    assert_eq!(*handle, "kept");
    assert_eq!(Rc::strong_count(&handle), 1);
}

#[test]
fn rc_eval_flush_on_empty_cache_does_nothing() {
    let counter = Cell::new(0);
    let mut eval = RcEval::from(|| {
        counter.set(counter.get() + 1);
        counter.get()
    });
    eval.flush();
    eval.flush();
    assert_eq!(counter.get(), 0);
    assert_eq!(*eval.rc_eval(), 1);
    eval.flush();
    eval.flush();
    assert_eq!(counter.get(), 1);
    assert_eq!(*eval.rc_eval(), 2);
    assert_eq!(counter.get(), 2);
}

#[test]
fn rc_eval_flush_restarts_the_cycle_each_time() {
    let counter = Cell::new(0);
    let mut eval = RcEval::from(|| {
        counter.set(counter.get() + 1);
        counter.get()
    });
    for cycle in 1..=6 {
        assert_eq!(*eval.rc_eval(), cycle);
        assert_eq!(*eval.rc_eval(), cycle);
        assert_eq!(counter.get(), cycle);
        eval.flush();
    }
}

#[test]
fn rc_eval_copy_path_shares_the_cache_with_handles() {
    let counter = Cell::new(0);
    let mut eval = RcEval::from(|| {
        counter.set(counter.get() + 1);
        counter.get()
    });
    assert_eq!(eval.eval(), 1);
    assert_eq!(*eval.rc_eval(), 1);
    assert_eq!(eval.eval(), 1);
    assert_eq!(counter.get(), 1);
    eval.flush();
    assert_eq!(*eval.rc_eval(), 2);
    assert_eq!(eval.eval(), 2);
    assert_eq!(counter.get(), 2);
}

#[test]
fn rc_eval_through_traits() {
    let counter = Cell::new(0);
    let mut eval = RcEval::from(|| {
        counter.set(counter.get() + 1);
        counter.get()
    });
    let handle = evaluate_shared_through_trait(&mut eval);
    assert_eq!(*handle, 1);
    assert_eq!(evaluate_through_trait(&mut eval), 1);
    assert!(Rc::ptr_eq(&handle, &evaluate_shared_through_trait(&mut eval)));
    eval.flush();
    assert_eq!(evaluate_through_trait(&mut eval), 2);
    assert_eq!(counter.get(), 2);
}

#[test]
fn rc_eval_closure_accessor_bypasses_the_cache() {
    let counter = Cell::new(0);
    let mut eval = RcEval::from(|| {
        counter.set(counter.get() + 1);
        counter.get()
    });
    assert_eq!(*eval.rc_eval(), 1);
    assert_eq!((eval.closure())(), 2);
    assert_eq!(*eval.rc_eval(), 1);
    assert_eq!(counter.get(), 2);
}

#[test]
fn dummy_eval_returns_the_value_on_every_call() {
    let dummy = DummyEval::from(42);
    for _ in 0..20 {
        assert_eq!(dummy.eval(), 42);
    }
    assert_eq!(dummy.into_inner(), 42);
}

#[test]
fn dummy_eval_clones_a_value_that_is_not_copy() {
    let dummy = DummyEval::from(String::from("fixed"));
    let first = dummy.eval();
    let second = dummy.eval();
    assert_eq!(first, "fixed");
    assert_eq!(second, "fixed");
    assert_ne!(first.as_ptr(), second.as_ptr());
    assert_eq!(dummy.into_inner(), "fixed");
}

#[test]
fn dummy_eval_through_trait() {
    let mut dummy = DummyEval::from(vec![1u8, 2, 3]);
    assert_eq!(evaluate_through_trait(&mut dummy), vec![1u8, 2, 3]);
    assert_eq!(evaluate_through_trait(&mut dummy), vec![1u8, 2, 3]);
    assert_eq!(dummy.into_inner(), vec![1u8, 2, 3]);
}

#[test]
fn new_and_from_construct_alike() {
    let counter = Cell::new(0);
    let producer = || {
        counter.set(counter.get() + 1);
        counter.get()
    };
    let mut made = Eval::new(&producer);
    let mut converted = Eval::from(&producer);
    assert_eq!(counter.get(), 0);
    assert_eq!(made.eval(), 1);
    assert_eq!(converted.eval(), 2);
    assert_eq!(made.eval(), 1);
    assert_eq!(converted.eval(), 2);
    let mut made = ImmEval::new(&producer);
    let mut converted = ImmEval::from(&producer);
    assert_eq!(made.eval(), 3);
    assert_eq!(converted.eval(), 4);
    assert_eq!(counter.get(), 4);
}
