use reqwest_cross::oneshot;
use reqwest_cross::{
    wait_before_next_attempt, wait_before_next_attempt_at, DataState, DataStateError, DataStateRetry,
};
use std::cell::Cell;

type Retry = DataStateRetry<u32, String>;

fn delivered(result: Result<u32, String>) -> oneshot::Receiver<Result<u32, String>> {
    let (tx, rx) = oneshot::channel();
    tx.send(result).unwrap();
    rx
}

fn clock() -> u128 {
    web_time::SystemTime::UNIX_EPOCH.elapsed().unwrap().as_millis()
}

#[test]
fn always_failing_producer_uses_up_the_budget() {
    let calls = Cell::new(0u32);
    let mut slot = Retry::new(2, 0..1);
    let mut steps = 0;
    while slot
        .start_or_poll(|| {
            calls.set(calls.get() + 1);
            delivered(Err("down".to_string()))
        })
        .is_able_to_make_progress()
    {
        steps += 1;
        assert!(steps < 100, "the slot kept retrying");
    }
    assert_eq!(calls.get(), 3);
    assert_eq!(slot.attempts_left(), 0);
    assert!(matches!(slot.inner(), DataState::Failed(DataStateError::ErrorResponse(_))));
    for _ in 0..3 {
        let r = slot.start_or_poll(|| {
            calls.set(calls.get() + 1);
            delivered(Ok(1))
        });
        assert!(r.is_unable_to_make_progress());
    }
    assert_eq!(calls.get(), 3);
    assert!(matches!(slot.inner(), DataState::Failed(_)));
}

#[test]
fn fails_twice_then_succeeds() {
    let calls = Cell::new(0u32);
    let mut slot = Retry::new(3, 0..1);
    let mut steps = 0;
    while slot
        .start_or_poll(|| {
            calls.set(calls.get() + 1);
            if calls.get() < 3 {
                delivered(Err("not yet".to_string()))
            } else {
                delivered(Ok(77))
            }
        })
        .is_able_to_make_progress()
    {
        steps += 1;
        assert!(steps < 100, "the slot kept retrying");
    }
    assert!(slot.is_present());
    assert_eq!(slot.present(), Some(&77));
    assert_eq!(slot.attempts_left(), 3);
    assert_eq!(calls.get(), 3);
}

#[test]
fn sampled_delay_lies_within_the_range() {
    let before = clock();
    let mut slot = Retry::new(3, 50..60);
    let r = slot.start_or_poll(|| delivered(Err("e".to_string())));
    let after = clock();
    assert!(r.is_able_to_make_progress());
    let next = slot.next_allowed_attempt();
    assert!(before + 50 <= next, "{next} too early");
    assert!(next < after + 60, "{next} too late");
}

#[test]
fn single_value_delay_range_is_used_exactly() {
    let mut slot = Retry::new(3, 10..11);
    let _ = slot.start_or_poll_at(1_000, 10, || delivered(Ok(1)));
    assert_eq!(slot.next_allowed_attempt(), 1_010);
    let before = clock();
    let mut slot = Retry::new(3, 10..11);
    let _ = slot.start_or_poll(|| delivered(Ok(1)));
    let after = clock();
    let next = slot.next_allowed_attempt();
    assert!(before + 10 <= next && next <= after + 10);
}

#[test]
fn failed_slot_waits_for_its_delay() {
    let calls = Cell::new(0u32);
    let mut slot = Retry::new(3, 0..1);
    let factory = || {
        calls.set(calls.get() + 1);
        delivered(Err("e".to_string()))
    };
    let _ = slot.start_or_poll_at(1_000, 500, factory);
    assert_eq!(slot.next_allowed_attempt(), 1_500);
    let _ = slot.start_or_poll_at(1_100, 0, || delivered(Ok(0)));
    assert!(matches!(slot.inner(), DataState::Failed(_)));
    let r = slot.start_or_poll_at(1_499, 0, || delivered(Ok(0)));
    assert!(r.is_able_to_make_progress());
    assert!(matches!(slot.inner(), DataState::Failed(_)));
    assert_eq!(slot.attempts_left(), 3);
    let r = slot.start_or_poll_at(1_500, 0, || delivered(Ok(0)));
    assert!(r.is_able_to_make_progress());
    assert!(slot.is_none());
    assert_eq!(slot.attempts_left(), 2);
    assert_eq!(calls.get(), 1);
}

#[test]
fn success_restores_budget_and_time() {
    let mut slot = Retry::new(3, 0..1);
    let _ = slot.start_or_poll_at(10, 0, || delivered(Err("e".to_string())));
    let _ = slot.start_or_poll_at(11, 0, || delivered(Ok(0)));
    let _ = slot.start_or_poll_at(12, 0, || delivered(Ok(0)));
    assert_eq!(slot.attempts_left(), 2);
    let _ = slot.start_or_poll_at(13, 4, || delivered(Ok(5)));
    assert_eq!(slot.next_allowed_attempt(), 17);
    let r = slot.start_or_poll_at(20, 0, || delivered(Ok(0)));
    assert!(r.is_able_to_make_progress());
    assert_eq!(slot.present(), Some(&5));
    assert_eq!(slot.attempts_left(), 3);
    assert_eq!(slot.next_allowed_attempt(), 20);
    let r = slot.start_or_poll_at(21, 0, || delivered(Ok(0)));
    assert!(r.is_unable_to_make_progress());
}

#[test]
fn next_allowed_attempt_saturates() {
    let mut slot = Retry::new(1, 0..1);
    let _ = slot.start_or_poll_at(u128::MAX - 1, 9, || delivered(Ok(0)));
    assert_eq!(slot.next_allowed_attempt(), u128::MAX);
}

#[test]
fn clear_resets_every_state() {
    // ready
    let mut slot = Retry::new(4, 0..1);
    let _ = slot.start_or_poll(|| delivered(Ok(1)));
    let _ = slot.start_or_poll(|| delivered(Ok(1)));
    assert!(slot.is_present());
    slot.clear();
    assert!(slot.is_none());
    assert_eq!(slot.attempts_left(), 4);
    // failed, budget used up
    let mut slot = Retry::new(1, 0..1);
    while slot
        .start_or_poll(|| delivered(Err("e".to_string())))
        .is_able_to_make_progress()
    {}
    assert_eq!(slot.attempts_left(), 0);
    slot.clear();
    assert!(slot.is_none());
    assert_eq!(slot.attempts_left(), 1);
    // pending
    let (_tx, rx) = oneshot::channel::<Result<u32, String>>();
    let mut slot = Retry::new(2, 0..1);
    let _ = slot.start_or_poll(|| rx);
    assert!(matches!(slot.inner(), DataState::AwaitingResponse(_)));
    slot.clear();
    assert!(slot.is_none());
    assert_eq!(slot.attempts_left(), 2);
}

#[test]
fn reset_attempts_allows_an_immediate_retry() {
    let mut slot = Retry::new(2, 0..1);
    slot.stop_trying();
    assert_eq!(slot.attempts_left(), 0);
    slot.reset_attempts();
    assert_eq!(slot.attempts_left(), 2);
    assert!(slot.next_allowed_attempt() <= clock());
}

#[test]
fn stop_trying_makes_a_failure_permanent() {
    let mut slot = Retry::new(3, 0..1);
    let _ = slot.start_or_poll(|| delivered(Err("e".to_string())));
    let _ = slot.start_or_poll(|| delivered(Ok(0)));
    slot.stop_trying();
    let r = slot.start_or_poll(|| delivered(Ok(0)));
    assert!(r.is_unable_to_make_progress());
    assert!(matches!(slot.into_inner(), DataState::Failed(_)));
}

#[test]
fn default_policy() {
    let slot = Retry::default();
    assert_eq!(slot.max_attempts, 3);
    assert_eq!(slot.retry_delay_millis, 1000..5000);
    assert_eq!(slot.attempts_left(), 3);
    assert!(slot.is_none());
}

#[test]
fn new_starts_with_the_full_budget_and_the_clock() {
    let before = clock();
    let slot = Retry::new(5, 1..2);
    let after = clock();
    assert_eq!(slot.attempts_left(), 5);
    assert!(before <= slot.next_allowed_attempt() && slot.next_allowed_attempt() <= after);
    assert!(slot.present().is_none());
}

#[test]
fn present_mut_reaches_the_data() {
    let mut slot = Retry::new(1, 0..1);
    let _ = slot.start_or_poll(|| delivered(Ok(1)));
    assert!(slot.present_mut().is_none());
    let _ = slot.start_or_poll(|| delivered(Ok(1)));
    *slot.present_mut().unwrap() += 10;
    assert_eq!(slot.present(), Some(&11));
}

#[test]
fn wait_before_next_attempt_counts_down() {
    assert_eq!(wait_before_next_attempt(0), 0);
    let now = clock();
    let left = wait_before_next_attempt(now + 60_000);
    assert!(left <= 60_000 && left > 50_000);
}

#[test]
fn wait_before_next_attempt_at_exact_values() {
    assert_eq!(wait_before_next_attempt_at(1_500, 1_000), 500);
    assert_eq!(wait_before_next_attempt_at(1_500, 1_500), 0);
    assert_eq!(wait_before_next_attempt_at(1_500, 2_000), 0);
}

#[test]
fn reset_attempts_at_unblocks_an_immediate_retry() {
    let mut slot = Retry::new(2, 0..1);
    let _ = slot.start_or_poll_at(1_000, 0, || delivered(Err("e".to_string())));
    let _ = slot.start_or_poll_at(1_001, 0, || delivered(Ok(0)));
    slot.stop_trying();
    let _ = slot.start_or_poll_at(900_000, 0, || delivered(Ok(0)));
    assert!(matches!(slot.inner(), DataState::Failed(_)));
    // a long cooldown is cut short by the reset
    let _ = slot.start_or_poll_at(0, 0, || delivered(Ok(0)));
    slot.reset_attempts_at(2_000);
    assert_eq!(slot.attempts_left(), 2);
    assert_eq!(slot.next_allowed_attempt(), 2_000);
    assert!(matches!(slot.inner(), DataState::Failed(_)));
    let r = slot.start_or_poll_at(2_000, 0, || delivered(Ok(0)));
    assert!(r.is_able_to_make_progress());
    assert!(slot.is_none());
    assert_eq!(slot.attempts_left(), 1);
}

#[test]
fn clear_allows_the_next_attempt_now() {
    let mut slot = Retry::new(2, 0..1);
    let _ = slot.start_or_poll_at(u128::MAX - 5, 0, || delivered(Ok(0)));
    assert_eq!(slot.next_allowed_attempt(), u128::MAX - 5);
    let before = clock();
    slot.clear();
    let after = clock();
    assert!(before <= slot.next_allowed_attempt() && slot.next_allowed_attempt() <= after);
    assert!(slot.is_none());
    assert_eq!(slot.attempts_left(), 2);
}
