use httpsys_server::bridge::AsyncWaitObject;
use httpsys_server::bridge::SharedState;
use std::sync::atomic::AtomicUsize;
use std::sync::atomic::Ordering;
use std::sync::Arc;
use std::task::Wake;
use std::task::Waker;

struct CountingWake {
    wakes: AtomicUsize,
}

impl Wake for CountingWake {
    fn wake(self: Arc<Self>) {
        self.wakes.fetch_add(1, Ordering::SeqCst);
    }
}

fn counting_waker() -> (Arc<CountingWake>, Waker) {
    let counter = Arc::new(CountingWake { wakes: AtomicUsize::new(0) });
    let waker = Waker::from(counter.clone());
    (counter, waker)
}

fn wakes_of(counter: &Arc<CountingWake>) -> usize {
    counter.wakes.load(Ordering::SeqCst)
}

#[test]
fn new_state_is_not_completed() {
    let state = SharedState::new();
    assert!(!state.is_completed());
}

#[test]
fn poll_before_completion_registers_and_is_not_ready() {
    let (counter, waker) = counting_waker();
    let mut state = SharedState::new();
    assert!(!state.poll(waker));
    assert!(!state.is_completed());
    assert_eq!(wakes_of(&counter), 0);
}

#[test]
fn complete_hands_out_the_registered_waker_once() {
    let (counter, waker) = counting_waker();
    let mut state = SharedState::new();
    assert!(!state.poll(waker));
    let woken = state.complete();
    assert!(woken.is_some());
    woken.unwrap().wake();
    assert_eq!(wakes_of(&counter), 1);
    assert!(state.is_completed());
    assert!(state.complete().is_none());
    assert_eq!(wakes_of(&counter), 1);
}

#[test]
fn complete_without_waiter_hands_out_nothing() {
    let mut state = SharedState::new();
    assert!(state.complete().is_none());
    assert!(state.is_completed());
}

#[test]
fn poll_after_completion_is_ready_and_registers_nothing() {
    let (counter, waker) = counting_waker();
    let mut state = SharedState::new();
    assert!(state.complete().is_none());
    assert!(state.poll(waker));
    assert!(state.complete().is_none());
    assert_eq!(wakes_of(&counter), 0);
}

#[test]
fn later_poll_replaces_stale_waker() {
    let (stale_counter, stale) = counting_waker();
    let (fresh_counter, fresh) = counting_waker();
    let mut state = SharedState::new();
    assert!(!state.poll(stale));
    assert!(!state.poll(fresh));
    state.complete().unwrap().wake();
    assert_eq!(wakes_of(&stale_counter), 0);
    assert_eq!(wakes_of(&fresh_counter), 1);
}

#[test]
fn token_is_ready_after_wake() {
    let (counter, waker) = counting_waker();
    let object = AsyncWaitObject::new();
    let token = object.get_await_token();
    assert!(!token.poll(&waker));
    assert_eq!(wakes_of(&counter), 0);
    object.wake();
    assert_eq!(wakes_of(&counter), 1);
    assert!(token.poll(&waker));
    assert_eq!(wakes_of(&counter), 1);
}

#[test]
fn wake_before_poll_is_not_missed() {
    let (counter, waker) = counting_waker();
    let object = AsyncWaitObject::new();
    object.wake();
    let token = object.get_await_token();
    assert!(token.poll(&waker));
    assert_eq!(wakes_of(&counter), 0);
}

#[test]
fn second_wake_wakes_nobody() {
    let (counter, waker) = counting_waker();
    let object = AsyncWaitObject::new();
    let token = object.get_await_token();
    assert!(!token.poll(&waker));
    object.wake();
    object.wake();
    object.wake();
    assert_eq!(wakes_of(&counter), 1);
}

#[test]
fn tokens_of_one_object_share_its_state() {
    let (counter, waker) = counting_waker();
    let object = AsyncWaitObject::new();
    let first = object.get_await_token();
    let second = object.get_await_token();
    assert!(!first.poll(&waker));
    object.wake();
    assert!(second.poll(&waker));
    assert_eq!(wakes_of(&counter), 1);
}

#[test]
fn reset_starts_over_and_leaves_old_tokens_alone() {
    let (counter, waker) = counting_waker();
    let mut object = AsyncWaitObject::new();
    let old_token = object.get_await_token();
    object.wake();
    assert!(old_token.poll(&waker));
    object.reset();
    let new_token = object.get_await_token();
    assert!(!new_token.poll(&waker));
    assert!(old_token.poll(&waker));
    object.wake();
    assert!(new_token.poll(&waker));
    assert_eq!(wakes_of(&counter), 1);
}

#[test]
fn each_of_many_operations_wakes_its_own_waiter_once() {
    let mut objects = Vec::new();
    let mut counters = Vec::new();
    for _ in 0..16 {
        let (counter, waker) = counting_waker();
        let object = AsyncWaitObject::new();
        let token = object.get_await_token();
        assert!(!token.poll(&waker));
        objects.push((object, token, waker));
        counters.push(counter);
    }
    for (object, _, _) in objects.iter().rev() {
        object.wake();
        object.wake();
    }
    for (index, counter) in counters.iter().enumerate() {
        assert_eq!(wakes_of(counter), 1);
        assert!(objects[index].1.poll(&objects[index].2));
    }
}
