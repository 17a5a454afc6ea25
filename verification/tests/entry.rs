use loomy::cell::UnsafeCell;
use std::sync::{Arc, Mutex};

#[test]
fn model_runs_the_body_exactly_once() {
    let mut runs = 0u32;
    loomy::model(|| runs += 1);
    assert_eq!(runs, 1);
}

#[test]
fn model_returns_after_the_body_has_finished() {
    let mut log: Vec<&str> = Vec::new();
    loomy::model(|| {
        log.push("first");
        log.push("second");
    });
    log.push("after");
    assert_eq!(log, vec!["first", "second", "after"]);
}

#[test]
fn model_takes_a_body_that_can_run_only_once() {
    let owned = String::from("moved in");
    let mut seen = 0usize;
    loomy::model(|| {
        let taken = owned;
        seen = taken.len();
    });
    assert_eq!(seen, 8);
}

#[test]
fn two_locked_increments_give_two_in_a_single_run() {
    let mut last = 0u64;
    let mut runs = 0u32;
    loomy::model(|| {
        let lock = Arc::new(Mutex::new(UnsafeCell::new(0u64)));
        let lock2 = Arc::clone(&lock);
        lock2.lock().unwrap().with_mut(|n| *n += 1);
        lock.lock().unwrap().with_mut(|n| *n += 1);
        last = lock.lock().unwrap().with(|n| *n);
        runs += 1;
    });
    assert_eq!(last, 2);
    assert_eq!(runs, 1);
}

#[test]
fn model_hands_back_what_the_body_wrote_to_a_cell() {
    let mut out = 0u64;
    loomy::model(|| {
        let mut cell = UnsafeCell::new(0u64);
        cell.with_mut(|n| *n += 1);
        cell.with_mut(|n| *n += 1);
        out = cell.with(|n| *n);
    });
    assert_eq!(out, 2);
}

#[test]
fn two_locked_increments_give_two_in_every_explored_schedule() {
    loom::model(|| {
        let lock = loom::sync::Arc::new(loom::sync::Mutex::new(UnsafeCell::new(0u64)));
        let lock2 = loom::sync::Arc::clone(&lock);
        let t = loom::thread::spawn(move || {
            lock2.lock().unwrap().with_mut(|n| *n += 1);
        });
        lock.lock().unwrap().with_mut(|n| *n += 1);
        t.join().unwrap();
        let out = lock.lock().unwrap().with(|n| *n);
        assert_eq!(out, 2);
    });
}

#[test]
fn racing_writers_end_in_one_of_the_two_orders() {
    loom::model(|| {
        let lock = loom::sync::Arc::new(loom::sync::Mutex::new(UnsafeCell::new(123u64)));
        let lock2 = loom::sync::Arc::clone(&lock);
        let t = loom::thread::spawn(move || {
            lock2.lock().unwrap().with_mut(|n| *n += 1);
        });
        lock.lock().unwrap().with_mut(|n| *n = 456);
        let out = lock.lock().unwrap().with(|n| *n);
        t.join().unwrap();
        assert!(out == 456 || out == 457);
    });
}
