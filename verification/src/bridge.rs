//! The completion bridge: one wait object per pending operation.
//!
//! A pending operation owns a small piece of shared state, a completed flag
//! and an optional wake handle, guarded by one mutex. The completion callback
//! sets the flag and wakes the registered waiter; the awaiting task checks the
//! flag and, while it is not set, registers its own wake handle.
//!
//! The transitions are verified on [`SharedState`]; [`WaitState`] is their
//! mathematical model, and the laws at the end of this file are stated over
//! whole histories of polls and completions.

use std::sync::Arc;
use std::sync::Mutex;
use std::sync::MutexGuard;
use std::task::Waker;
use vstd::prelude::*;

verus! {

/// `std::task::Waker`, carried through as an opaque value.
#[verifier::external_type_specification]
#[verifier::external_body]
pub struct ExWaker(Waker);

/// `std::sync::Mutex`, carried through as an opaque value.
#[verifier::external_type_specification]
#[verifier::external_body]
#[verifier::reject_recursive_types(T)]
pub struct ExMutex<T: ?Sized>(Mutex<T>);

/// `std::sync::MutexGuard`, carried through as an opaque value.
#[verifier::external_type_specification]
#[verifier::external_body]
#[verifier::reject_recursive_types(T)]
pub struct ExMutexGuard<'a, T: ?Sized + 'a>(MutexGuard<'a, T>);

/// The model of one wait object: whether the operation has completed, and the
/// wake handle of the task that waits for it, if one is registered.
pub struct WaitState {
    pub completed: bool,
    pub waker: Option<Waker>,
}

impl WaitState {
    /// The state of a newly created wait object.
    pub open spec fn fresh() -> WaitState {
        WaitState { completed: false, waker: None }
    }

    /// No wake handle stays registered once the operation has completed.
    pub open spec fn wf(self) -> bool {
        self.completed ==> self.waker is None
    }

    /// The state after the completion callback has run.
    pub open spec fn complete(self) -> WaitState {
        WaitState { completed: true, waker: None }
    }

    /// The wake handle that the completion callback fires in this state.
    pub open spec fn fired(self) -> Option<Waker> {
        self.waker
    }

    /// Whether a poll in this state finds the operation ready.
    pub open spec fn ready(self) -> bool {
        self.completed
    }

    /// The state after a poll that offers `waker`.
    pub open spec fn poll(self, waker: Waker) -> WaitState {
        if self.completed {
            self
        } else {
            WaitState { completed: false, waker: Some(waker) }
        }
    }
}

/// The state that the completion callback and the awaiting task share.
pub struct SharedState {
    completed: bool,
    waker: Option<Waker>,
}

impl View for SharedState {
    type V = WaitState;

    closed spec fn view(&self) -> WaitState {
        WaitState { completed: self.completed, waker: self.waker }
    }
}

impl SharedState {
    #[verifier::type_invariant]
    spec fn inv(self) -> bool {
        self.completed ==> self.waker is None
    }

    pub fn new() -> (state: SharedState)
        ensures
            state@ == WaitState::fresh(),
    {
        SharedState { completed: false, waker: None }
    }

    /// Whether the operation has completed.
    pub fn is_completed(&self) -> (done: bool)
        ensures
            done == self@.ready(),
            self@.wf(),
    {
        proof {
            use_type_invariant(self);
        }
        self.completed
    }

    /// Records the completion and hands out the wake handle to fire, if a
    /// waiter is registered. A second completion finds none.
    pub fn complete(&mut self) -> (woken: Option<Waker>)
        ensures
            old(self)@.wf(),
            final(self)@ == old(self)@.complete(),
            woken == old(self)@.fired(),
    {
        proof {
            use_type_invariant(&*self);
        }
        let mut woken: Option<Waker> = None;
        std::mem::swap(&mut self.waker, &mut woken);
        self.completed = true;
        woken
    }

    /// Polls the operation. Before completion the offered wake handle
    /// replaces the registered one and the poll is not ready; after
    /// completion the poll is ready and nothing is registered.
    pub fn poll(&mut self, waker: Waker) -> (ready: bool)
        ensures
            old(self)@.wf(),
            final(self)@.wf(),
            ready == old(self)@.ready(),
            final(self)@ == old(self)@.poll(waker),
    {
        proof {
            use_type_invariant(&*self);
        }
        if self.completed {
            true
        } else {
            self.waker = Some(waker);
            false
        }
    }
}

/// The state that a mutex held when it was created. It belongs to the mutex
/// for good: what the mutex holds later does not change it.
pub uninterp spec fn created_with(mutex: Mutex<SharedState>) -> WaitState;

/// Calls `Mutex::new`, which creates a mutex that holds `state`.
#[verifier::external_body]
fn new_mutex(state: SharedState) -> (mutex: Mutex<SharedState>)
    ensures
        created_with(mutex) == state@,
{
    Mutex::new(state)
}

/// Calls `Mutex::lock` and blocks until the lock is held. A poisoned lock is
/// taken over. Nothing is promised of what the mutex holds at that moment.
#[verifier::external_body]
fn lock_state<'a>(mutex: &'a Mutex<SharedState>) -> MutexGuard<'a, SharedState> {
    match mutex.lock() {
        Ok(guard) => guard,
        Err(poisoned) => poisoned.into_inner(),
    }
}

/// Calls `DerefMut::deref_mut` of `MutexGuard`: the state behind the held lock.
#[verifier::external_body]
fn guarded<'a, 'b>(guard: &'a mut MutexGuard<'b, SharedState>) -> &'a mut SharedState {
    &mut *guard
}

/// Calls `Arc::clone`, which makes another pointer to the same allocation:
/// the handle returned points to the very mutex that `state` points to.
#[verifier::external_body]
fn share(state: &Arc<Mutex<SharedState>>) -> (handle: Arc<Mutex<SharedState>>)
    ensures
        handle == *state,
{
    Arc::clone(state)
}

/// Calls `Waker::wake`, which schedules the task behind the wake handle.
#[verifier::external_body]
fn fire(waker: Waker) {
    waker.wake()
}

/// Calls `Waker::clone`.
#[verifier::external_body]
fn clone_waker(waker: &Waker) -> Waker {
    waker.clone()
}

/// The completion side of a pending operation.
pub struct AsyncWaitObject {
    shared_state: Arc<Mutex<SharedState>>,
}

/// The waiting side of a pending operation.
pub struct AwaitableToken {
    shared_state: Arc<Mutex<SharedState>>,
}

impl AsyncWaitObject {
    /// The mutex that guards the object's shared state. It stands for the
    /// mutex itself, not for what the mutex holds at any moment.
    pub closed spec fn mutex(&self) -> Mutex<SharedState> {
        *self.shared_state
    }

    /// The state that the object's shared state was created in.
    pub open spec fn initial_state(&self) -> WaitState {
        created_with(self.mutex())
    }

    /// A wait object whose shared state starts out not completed and without
    /// a waiter.
    pub fn new() -> (object: AsyncWaitObject)
        ensures
            object.initial_state() == WaitState::fresh(),
    {
        AsyncWaitObject { shared_state: Arc::new(new_mutex(SharedState::new())) }
    }

    /// Marks the operation completed and wakes the registered waiter, after
    /// the lock is given back. Safe to call from any thread; a call after the
    /// first wakes nobody.
    pub fn wake(&self) {
        let woken = {
            let mut guard = lock_state(&self.shared_state);
            guarded(&mut guard).complete()
        };
        if let Some(waker) = woken {
            fire(waker);
        }
    }

    /// Starts over with new shared state, created not completed and without
    /// a waiter. Tokens handed out before keep the old state.
    pub fn reset(&mut self)
        ensures
            final(self).initial_state() == WaitState::fresh(),
    {
        self.shared_state = Arc::new(new_mutex(SharedState::new()));
    }

    /// A token that shares this object's state: it is guarded by the same
    /// mutex.
    pub fn get_await_token(&self) -> (token: AwaitableToken)
        ensures
            token.mutex() == self.mutex(),
    {
        AwaitableToken { shared_state: share(&self.shared_state) }
    }
}

impl AwaitableToken {
    /// The mutex that guards the shared state that the token waits on.
    pub closed spec fn mutex(&self) -> Mutex<SharedState> {
        *self.shared_state
    }

    /// One poll of the awaiting task: `true` once the operation has
    /// completed; otherwise a clone of `waker` is registered, in place of any
    /// earlier one, and the result is `false`.
    pub fn poll(&self, waker: &Waker) -> (ready: bool) {
        let mut guard = lock_state(&self.shared_state);
        let state = guarded(&mut guard);
        if state.is_completed() {
            true
        } else {
            state.poll(clone_waker(waker))
        }
    }
}

/// What can happen to a wait object: the awaiting task polls it, offering a
/// wake handle, or the completion callback runs.
pub enum BridgeEvent {
    Poll(Waker),
    Complete,
}

/// The state after one event.
pub open spec fn step(state: WaitState, event: BridgeEvent) -> WaitState {
    match event {
        BridgeEvent::Poll(waker) => state.poll(waker),
        BridgeEvent::Complete => state.complete(),
    }
}

/// The wake handle that one event fires.
pub open spec fn step_fires(state: WaitState, event: BridgeEvent) -> Option<Waker> {
    match event {
        BridgeEvent::Poll(_) => None,
        BridgeEvent::Complete => state.fired(),
    }
}

/// The state after a history of events.
pub open spec fn run(state: WaitState, history: Seq<BridgeEvent>) -> WaitState
    decreases history.len(),
{
    if history.len() == 0 {
        state
    } else {
        step(run(state, history.drop_last()), history.last())
    }
}

/// The wake handles fired over a history of events, in order.
pub open spec fn wakes(state: WaitState, history: Seq<BridgeEvent>) -> Seq<Waker>
    decreases history.len(),
{
    if history.len() == 0 {
        Seq::empty()
    } else {
        let earlier = wakes(state, history.drop_last());
        match step_fires(run(state, history.drop_last()), history.last()) {
            Some(waker) => earlier.push(waker),
            None => earlier,
        }
    }
}

/// Whether a history holds a completion.
pub open spec fn has_completion(history: Seq<BridgeEvent>) -> bool {
    exists|k: int| 0 <= k < history.len() && history[k] is Complete
}

/// The wake handle of the last poll in a history.
pub open spec fn last_offered(history: Seq<BridgeEvent>) -> Option<Waker>
    decreases history.len(),
{
    if history.len() == 0 {
        None
    } else {
        match history.last() {
            BridgeEvent::Poll(waker) => Some(waker),
            BridgeEvent::Complete => last_offered(history.drop_last()),
        }
    }
}

/// What a history without a completion leaves behind: nobody was woken, and
/// the waiter registered is the one that polled last.
pub proof fn lemma_before_completion(history: Seq<BridgeEvent>)
    requires
        !has_completion(history),
    ensures
        run(WaitState::fresh(), history) == (WaitState {
            completed: false,
            waker: last_offered(history),
        }),
        wakes(WaitState::fresh(), history).len() == 0,
    decreases history.len(),
{
    if history.len() > 0 {
        let earlier = history.drop_last();
        assert(history[history.len() - 1] == history.last());
        assert(!has_completion(earlier)) by {
            if has_completion(earlier) {
                let k = choose|k: int| 0 <= k < earlier.len() && earlier[k] is Complete;
                assert(history[k] is Complete);
            }
        }
        lemma_before_completion(earlier);
    }
}

/// Once completed, always completed: later events change nothing and wake
/// nobody.
pub proof fn lemma_after_completion(state: WaitState, history: Seq<BridgeEvent>)
    requires
        state.completed,
        state.wf(),
    ensures
        run(state, history) == state,
        wakes(state, history).len() == 0,
    decreases history.len(),
{
    if history.len() > 0 {
        lemma_after_completion(state, history.drop_last());
    }
}

/// Running a history in two parts.
pub proof fn lemma_run_split(state: WaitState, first: Seq<BridgeEvent>, second: Seq<BridgeEvent>)
    ensures
        run(state, first + second) == run(run(state, first), second),
        wakes(state, first + second) == wakes(state, first) + wakes(run(state, first), second),
    decreases second.len(),
{
    if second.len() == 0 {
        assert(first + second =~= first);
        assert(wakes(state, first) + Seq::<Waker>::empty() =~= wakes(state, first));
    } else {
        assert((first + second).drop_last() =~= first + second.drop_last());
        assert((first + second).last() == second.last());
        lemma_run_split(state, first, second.drop_last());
        let mid = run(state, first);
        let earlier = wakes(mid, second.drop_last());
        match step_fires(run(mid, second.drop_last()), second.last()) {
            Some(waker) => {
                assert(wakes(state, first) + earlier.push(waker) =~= (wakes(state, first)
                    + earlier).push(waker));
            },
            None => {},
        }
    }
}

/// No double wake: whatever polls and completions reach a wait object, and in
/// whatever order, at most one wake handle is ever fired.
pub proof fn lemma_wakes_at_most_once(history: Seq<BridgeEvent>)
    ensures
        wakes(WaitState::fresh(), history).len() <= 1,
        run(WaitState::fresh(), history).wf(),
        run(WaitState::fresh(), history).completed <==> has_completion(history),
    decreases history.len(),
{
    if !has_completion(history) {
        lemma_before_completion(history);
    } else {
        let k = choose|k: int| 0 <= k < history.len() && history[k] is Complete;
        let earlier = history.drop_last();
        if history.last() is Complete {
            lemma_wakes_at_most_once(earlier);
            if has_completion(earlier) {
                // the flag is set already: this completion fires nothing
            } else {
                lemma_before_completion(earlier);
            }
        } else {
            assert(k < history.len() - 1);
            assert(earlier[k] is Complete);
            lemma_wakes_at_most_once(earlier);
        }
    }
}

/// No missed wake, waiter first: if the task polled last with `waker` and
/// the completion callback runs next, exactly that wake handle is fired, once,
/// whatever follows.
pub proof fn lemma_registered_waiter_is_woken(
    polls: Seq<BridgeEvent>,
    waker: Waker,
    rest: Seq<BridgeEvent>,
)
    requires
        !has_completion(polls),
    ensures
        wakes(
            WaitState::fresh(),
            polls.push(BridgeEvent::Poll(waker)).push(BridgeEvent::Complete) + rest,
        ) == seq![waker],
{
    let registered = polls.push(BridgeEvent::Poll(waker));
    let completed = registered.push(BridgeEvent::Complete);
    assert(!has_completion(registered)) by {
        if has_completion(registered) {
            let k = choose|k: int| 0 <= k < registered.len() && registered[k] is Complete;
            assert(polls[k] is Complete);
        }
    }
    lemma_before_completion(registered);
    assert(registered.drop_last() =~= polls);
    assert(completed.drop_last() =~= registered);
    assert(run(WaitState::fresh(), completed).completed);
    assert(wakes(WaitState::fresh(), completed) =~= seq![waker]);
    lemma_run_split(WaitState::fresh(), completed, rest);
    lemma_after_completion(run(WaitState::fresh(), completed), rest);
    assert(wakes(WaitState::fresh(), completed) + wakes(
        run(WaitState::fresh(), completed),
        rest,
    ) =~= seq![waker]);
}

/// No missed wake, completion first: every poll that follows a completion
/// finds the operation ready.
pub proof fn lemma_poll_after_completion_is_ready(
    history: Seq<BridgeEvent>,
    later: Seq<BridgeEvent>,
)
    requires
        has_completion(history),
    ensures
        run(WaitState::fresh(), history + later).ready(),
{
    lemma_wakes_at_most_once(history);
    lemma_run_split(WaitState::fresh(), history, later);
    lemma_after_completion(run(WaitState::fresh(), history), later);
}

} // verus!
