use expression_problem::memory::{get, tick, Increment, Mem, Recall};

#[test]
fn can_run_tick() {
    let mut mem = Mem { value: 4 };
    let result = tick(&mut mem);
    assert_eq!(result, 4);
    assert_eq!(mem.value, 5);
}

#[test]
fn can_run_get() {
    assert_eq!(get(&Mem { value: 4 }), 4);
    assert_eq!(get(&Mem { value: 10 }), 10);
}

#[test]
fn memory_increments_by_any_delta() {
    let mut mem = Mem { value: -3 };
    mem.increment(10);
    assert_eq!(mem.recall(), 7);
    mem.increment(-7);
    assert_eq!(mem.recall(), 0);
}

#[test]
fn memory_ticks_one_by_one() {
    let mut mem = Mem { value: i64::MAX - 2 };
    assert_eq!(tick(&mut mem), i64::MAX - 2);
    assert_eq!(tick(&mut mem), i64::MAX - 1);
    assert_eq!(get(&mem), i64::MAX);
}
