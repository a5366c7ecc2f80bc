//! A slot that retries its request, after a random delay, until an attempt
//! budget is used up.

use crate::data_state::{Awaiting, CanMakeProgress, DataState, DataStateError, ErrorBounds};
use futures::channel::oneshot;
use rand::Rng;
use std::ops::Range;
use vstd::prelude::*;
use vstd::std_specs::convert::IntoSpec;

verus! {

/// Relies on `rand::Rng::gen_range` over `rand::thread_rng()`: a value drawn
/// from `start..end`, a range that it panics on when empty.
#[verifier::external_body]
fn random_delay(start: u16, end: u16) -> (d: u16)
    requires
        start < end,
    ensures
        start <= d < end,
{
    rand::thread_rng().gen_range(start..end)
}

/// Relies on `web_time::SystemTime::UNIX_EPOCH.elapsed()`: the time since the
/// Unix epoch in milliseconds, or `None` where the clock reads an earlier time.
#[verifier::external_body]
fn clock_millis() -> Option<u128> {
    match web_time::SystemTime::UNIX_EPOCH.elapsed() {
        Ok(elapsed) => Some(elapsed.as_millis()),
        Err(_) => None,
    }
}

/// The current time in milliseconds since the Unix epoch; a clock that reads
/// an earlier time reads as the epoch itself.
fn millis_since_epoch() -> u128 {
    match clock_millis() {
        Some(millis) => millis,
        None => 0,
    }
}

/// How long is left to wait, at time `now`, before `next_allowed_attempt`.
pub open spec fn wait_left(next_allowed_attempt: u128, now: u128) -> u128 {
    next_allowed_attempt.saturating_sub(now)
}

/// The time in milliseconds that is left, at time `now`, before the next
/// attempt is allowed.
pub fn wait_before_next_attempt_at(next_allowed_attempt: u128, now: u128) -> (r: u128)
    ensures
        r == wait_left(next_allowed_attempt, now),
{
    next_allowed_attempt.saturating_sub(now)
}

/// The time in milliseconds that is left before the next attempt is allowed.
pub fn wait_before_next_attempt(next_allowed_attempt: u128) -> (r: u128)
    ensures
        exists|now: u128| r == #[trigger] wait_left(next_allowed_attempt, now),
{
    wait_before_next_attempt_at(next_allowed_attempt, millis_since_epoch())
}

/// Retries a request with a random delay after each failure, until its
/// attempts are used up.
#[derive(Debug)]
#[verifier::reject_recursive_types(T)]
#[verifier::reject_recursive_types(E)]
pub struct DataStateRetry<T, E: ErrorBounds = anyhow::Error> {
    /// The number of attempts that the budget is reset to.
    pub max_attempts: u8,
    /// The range of milliseconds that the delay before a retry is drawn from.
    pub retry_delay_millis: Range<u16>,
    attempts_left: u8,
    inner: DataState<T, E>,
    next_allowed_attempt: u128,
}

/// The state of a [`DataStateRetry`], as plain values.
#[verifier::reject_recursive_types(T)]
#[verifier::reject_recursive_types(E)]
pub struct RetryView<T, E: ErrorBounds> {
    pub max_attempts: u8,
    pub retry_delay_millis: Range<u16>,
    pub attempts_left: u8,
    pub inner: DataState<T, E>,
    pub next_allowed_attempt: u128,
}

impl<T, E: ErrorBounds> RetryView<T, E> {
    /// The attempts left never exceed the budget.
    pub open spec fn wf(self) -> bool {
        self.attempts_left <= self.max_attempts
    }

    /// The state with the full budget of attempts restored and the next
    /// attempt allowed from time `now` on.
    pub open spec fn with_attempts_reset(self, now: u128) -> Self {
        RetryView { attempts_left: self.max_attempts, next_allowed_attempt: now, ..self }
    }

    /// The state with nothing requested, the full budget of attempts
    /// restored and the next attempt allowed from time `now` on.
    pub open spec fn cleared(self, now: u128) -> Self {
        RetryView { inner: DataState::Empty, ..self.with_attempts_reset(now) }
    }

    /// One call of `start_or_poll` at time `now`, with `delay` drawn for a
    /// new attempt and `outcome` returned by the receive of a poll, may take
    /// the slot from `self` to `next` and return `r`:
    /// - an empty slot starts a request and allows the attempt after it from
    ///   `now + delay` on;
    /// - a pending slot is polled, and its budget is restored on success;
    /// - a slot with data has nothing left to do;
    /// - a failed slot with attempts left and its delay over is emptied, to
    ///   start again on the next call, and its budget goes down by one; with
    ///   the delay not yet over it waits; with no attempts left it has
    ///   nothing left to do.
    pub open spec fn start_or_poll_step(
        self,
        next: Self,
        now: u128,
        delay: u16,
        outcome: Result<Option<Result<T, E>>, oneshot::Canceled>,
        r: CanMakeProgress,
    ) -> bool {
        &&& next.max_attempts == self.max_attempts
        &&& next.retry_delay_millis == self.retry_delay_millis
        &&& match self.inner {
            DataState::Empty => {
                &&& r is AbleToMakeProgress
                &&& next.inner is AwaitingResponse
                &&& next.attempts_left == self.attempts_left
                &&& next.next_allowed_attempt == now.saturating_add(delay as u128)
            },
            DataState::AwaitingResponse(_) => {
                &&& r is AbleToMakeProgress
                &&& self.inner.polled(next.inner, outcome)
                &&& if next.inner is Present {
                    next.attempts_left == self.max_attempts && next.next_allowed_attempt == now
                } else {
                    next.attempts_left == self.attempts_left && next.next_allowed_attempt
                        == self.next_allowed_attempt
                }
            },
            DataState::Present(_) => r is UnableToMakeProgress && next == self,
            DataState::Failed(_) => if self.attempts_left == 0 {
                r is UnableToMakeProgress && next == self
            } else if now < self.next_allowed_attempt {
                r is AbleToMakeProgress && next == self
            } else {
                &&& r is AbleToMakeProgress
                &&& next == (RetryView {
                    inner: DataState::Empty,
                    attempts_left: (self.attempts_left - 1) as u8,
                    ..self
                })
            },
        }
    }
}

impl<T, E: ErrorBounds> View for DataStateRetry<T, E> {
    type V = RetryView<T, E>;

    closed spec fn view(&self) -> RetryView<T, E> {
        RetryView {
            max_attempts: self.max_attempts,
            retry_delay_millis: self.retry_delay_millis,
            attempts_left: self.attempts_left,
            inner: self.inner,
            next_allowed_attempt: self.next_allowed_attempt,
        }
    }
}

impl<T, E: ErrorBounds> DataStateRetry<T, E> {
    /// A slot with the given budget and delay range, its full budget left and
    /// nothing requested yet.
    pub fn new(max_attempts: u8, retry_delay_millis: Range<u16>) -> (r: Self)
        ensures
            r@.max_attempts == max_attempts,
            r@.retry_delay_millis == retry_delay_millis,
            r@.attempts_left == max_attempts,
            r@.inner is Empty,
            r@.wf(),
    {
        Self {
            max_attempts,
            retry_delay_millis,
            attempts_left: max_attempts,
            inner: DataState::Empty,
            next_allowed_attempt: millis_since_epoch(),
        }
    }

    /// Drives the request at time `now`: starts it when the slot is empty,
    /// allowing the attempt after it from `now + delay` on, polls it while it
    /// is pending, and empties a failed slot for a retry once the delay is
    /// over and attempts are left. Returns whether calling again could make
    /// progress.
    pub fn start_or_poll_at<F, R>(&mut self, now: u128, delay: u16, fetch_fn: F) -> (r:
        CanMakeProgress) where
        F: FnOnce() -> R,
        R: Into<Awaiting<T, E>>,
        requires
            old(self)@.inner is Empty ==> fetch_fn.requires(()),
        ensures
            exists|outcome| #[trigger] old(self)@.start_or_poll_step(final(self)@, now, delay, outcome, r),
            old(self)@.wf() ==> final(self)@.wf(),
            old(self)@.inner is Empty ==> exists|p: R|
                {
                    &&& #[trigger] fetch_fn.ensures((), p)
                    &&& R::obeys_into_spec() ==> final(self)@.inner == DataState::AwaitingResponse(
                        p.into_spec(),
                    )
                },
    {
        let ghost before = self@;
        // Only a poll reads the channel; in every other state its outcome
        // does not matter.
        let ghost mut outcome = Ok(None);
        let r = match self.inner {
            DataState::Empty => {
                self.next_allowed_attempt = now.saturating_add(delay as u128);
                self.inner.start_request(fetch_fn)
            },
            DataState::AwaitingResponse(_) => {
                let present = self.inner.poll().is_present();
                proof {
                    outcome = choose|outcome| before.inner.polled(self.inner, outcome);
                }
                if present {
                    self.attempts_left = self.max_attempts;
                    self.next_allowed_attempt = now;
                }
                CanMakeProgress::AbleToMakeProgress
            },
            DataState::Present(_) => CanMakeProgress::UnableToMakeProgress,
            DataState::Failed(_) => {
                if self.attempts_left == 0 {
                    CanMakeProgress::UnableToMakeProgress
                } else {
                    if now >= self.next_allowed_attempt {
                        self.attempts_left = self.attempts_left - 1;
                        self.inner = DataState::Empty;
                    }
                    CanMakeProgress::AbleToMakeProgress
                }
            },
        };
        assert(before.start_or_poll_step(self@, now, delay, outcome, r));
        r
    }

    /// Drives the request, as [`Self::start_or_poll_at`] does, at the current
    /// time and with a delay drawn at random from `retry_delay_millis` when a
    /// request is started.
    pub fn start_or_poll<F, R>(&mut self, fetch_fn: F) -> (r: CanMakeProgress) where
        F: FnOnce() -> R,
        R: Into<Awaiting<T, E>>,
        requires
            old(self)@.inner is Empty ==> {
                &&& old(self)@.retry_delay_millis.start < old(self)@.retry_delay_millis.end
                &&& fetch_fn.requires(())
            },
        ensures
            exists|now: u128, delay: u16, outcome|
                {
                    &&& #[trigger] old(self)@.start_or_poll_step(final(self)@, now, delay, outcome, r)
                    &&& old(self)@.inner is Empty ==> old(self)@.retry_delay_millis.start <= delay
                        < old(self)@.retry_delay_millis.end
                },
            old(self)@.wf() ==> final(self)@.wf(),
            old(self)@.inner is Empty ==> exists|p: R|
                {
                    &&& #[trigger] fetch_fn.ensures((), p)
                    &&& R::obeys_into_spec() ==> final(self)@.inner == DataState::AwaitingResponse(
                        p.into_spec(),
                    )
                },
    {
        let now = millis_since_epoch();
        // A delay is drawn only for a request that is about to start; in any
        // other state it is not read.
        let delay = if self.inner.is_none() {
            random_delay(self.retry_delay_millis.start, self.retry_delay_millis.end)
        } else {
            self.retry_delay_millis.start
        };
        self.start_or_poll_at(now, delay, fetch_fn)
    }

    /// The number of attempts left before the slot stops retrying.
    pub fn attempts_left(&self) -> (r: u8)
        ensures
            r == self@.attempts_left,
    {
        self.attempts_left
    }

    /// The time, in milliseconds since the Unix epoch, from which the next
    /// attempt is allowed.
    pub fn next_allowed_attempt(&self) -> (r: u128)
        ensures
            r == self@.next_allowed_attempt,
    {
        self.next_allowed_attempt
    }

    /// The slot that holds the current request.
    pub fn inner(&self) -> (r: &DataState<T, E>)
        ensures
            *r == self@.inner,
    {
        &self.inner
    }

    /// Consumes the retrying slot and returns the slot that it wraps.
    pub fn into_inner(self) -> (r: DataState<T, E>)
        ensures
            r == self@.inner,
    {
        self.inner
    }

    /// Returns the data if it is available. Does not poll.
    pub fn present(&self) -> (r: Option<&T>)
        ensures
            match r {
                Some(d) => self@.inner.data() == Some(*d),
                None => self@.inner.data() is None,
            },
    {
        self.inner.present()
    }

    /// Returns the data, for changing it in place, if it is available. Does
    /// not poll.
    pub fn present_mut(&mut self) -> (r: Option<&mut T>)
        ensures
            r is Some <==> old(self)@.inner is Present,
            r is Some ==> *r->0 == old(self)@.inner->Present_0 && final(self)@ == (RetryView {
                inner: DataState::Present(*final(r->0)),
                ..old(self)@
            }),
            r is None ==> final(self)@ == old(self)@,
    {
        self.inner.present_mut()
    }

    /// Restores the full budget of attempts and allows the next attempt from
    /// time `now` on.
    pub fn reset_attempts_at(&mut self, now: u128)
        ensures
            final(self)@ == old(self)@.with_attempts_reset(now),
            final(self)@.wf(),
    {
        self.attempts_left = self.max_attempts;
        self.next_allowed_attempt = now;
    }

    /// Restores the full budget of attempts and allows the next attempt at
    /// once.
    pub fn reset_attempts(&mut self)
        ensures
            exists|now: u128| final(self)@ == #[trigger] old(self)@.with_attempts_reset(now),
            final(self)@.wf(),
    {
        let now = millis_since_epoch();
        self.reset_attempts_at(now);
        assert(self@ == old(self)@.with_attempts_reset(now));
    }

    /// Drops the data, the failure or the request under way, and restores
    /// the full budget of attempts.
    pub fn clear(&mut self)
        ensures
            exists|now: u128| final(self)@ == #[trigger] old(self)@.cleared(now),
            final(self)@.wf(),
    {
        self.inner = DataState::default();
        let now = millis_since_epoch();
        self.reset_attempts_at(now);
        assert(self@ == old(self)@.cleared(now));
    }

    /// Uses up the attempts that are left: a failed slot then stays failed
    /// until it is cleared or its attempts are reset.
    pub fn stop_trying(&mut self)
        ensures
            final(self)@ == (RetryView { attempts_left: 0, ..old(self)@ }),
            final(self)@.wf(),
    {
        self.attempts_left = 0;
    }

    /// Returns `true` if the data is available.
    pub fn is_present(&self) -> (r: bool)
        ensures
            r == (self@.inner is Present),
    {
        self.inner.is_present()
    }

    /// Returns `true` if there is neither data nor a request under way.
    pub fn is_none(&self) -> (r: bool)
        ensures
            r == (self@.inner is Empty),
    {
        self.inner.is_none()
    }
}

impl<T, E: ErrorBounds> Default for DataStateRetry<T, E> {
    /// Three attempts, with a delay of one to five seconds before a retry.
    fn default() -> (r: Self)
        ensures
            r@.max_attempts == 3,
            r@.retry_delay_millis == (Range { start: 1000u16, end: 5000u16 }),
            r@.attempts_left == 3,
            r@.inner is Empty,
            r@.wf(),
    {
        Self {
            inner: DataState::Empty,
            max_attempts: 3,
            retry_delay_millis: 1000..5000,
            attempts_left: 3,
            next_allowed_attempt: millis_since_epoch(),
        }
    }
}

impl<T, E: ErrorBounds> AsRef<DataStateRetry<T, E>> for DataStateRetry<T, E> {
    fn as_ref(&self) -> (r: &DataStateRetry<T, E>)
        ensures
            r@ == self@,
    {
        self
    }
}

impl<T, E: ErrorBounds> AsMut<DataStateRetry<T, E>> for DataStateRetry<T, E> {
    fn as_mut(&mut self) -> (r: &mut DataStateRetry<T, E>)
        ensures
            r@ == old(self)@,
            final(self)@ == final(r)@,
    {
        self
    }
}

/// The weight of a retrying slot's remaining chances to start a request: one
/// for each attempt left, and one more while the slot is empty.
pub open spec fn chances<T, E: ErrorBounds>(s: RetryView<T, E>) -> nat {
    s.attempts_left as nat + if s.inner is Empty {
        1nat
    } else {
        0nat
    }
}

/// The number of steps of a run that start a request, that is, the steps
/// that leave an empty slot.
pub open spec fn dispatch_count<T, E: ErrorBounds>(run: Seq<RetryView<T, E>>) -> nat
    decreases run.len(),
{
    if run.len() <= 1 {
        0
    } else {
        dispatch_count(run.drop_last()) + if run[run.len() - 2].inner is Empty {
            1nat
        } else {
            0nat
        }
    }
}

/// `run` is a sequence of states that successive calls of `start_or_poll`
/// go through, call `k` made at time `nows[k]`, with delay `delays[k]`, its
/// receive (if it polls) returning `outcomes[k]`, and returning `results[k]`.
pub open spec fn is_run<T, E: ErrorBounds>(
    run: Seq<RetryView<T, E>>,
    nows: Seq<u128>,
    delays: Seq<u16>,
    outcomes: Seq<Result<Option<Result<T, E>>, oneshot::Canceled>>,
    results: Seq<CanMakeProgress>,
) -> bool {
    &&& run.len() == nows.len() + 1
    &&& delays.len() == nows.len()
    &&& outcomes.len() == nows.len()
    &&& results.len() == nows.len()
    &&& forall|k: int|
        0 <= k < nows.len() ==> #[trigger] run[k].start_or_poll_step(
            run[k + 1],
            nows[k],
            delays[k],
            outcomes[k],
            results[k],
        )
}

/// The factory is called only on a step that leaves an empty slot, and such a
/// step leaves the slot pending. Between two such steps of a run, the request
/// of the first has failed and the step just before the second has emptied
/// the slot for a retry: no request is started while another is pending or
/// after one has succeeded.
pub proof fn lemma_one_request_at_a_time<T, E: ErrorBounds>(
    run: Seq<RetryView<T, E>>,
    nows: Seq<u128>,
    delays: Seq<u16>,
    outcomes: Seq<Result<Option<Result<T, E>>, oneshot::Canceled>>,
    results: Seq<CanMakeProgress>,
    i: int,
    j: int,
)
    requires
        is_run(run, nows, delays, outcomes, results),
        0 <= i < j < nows.len(),
        run[i].inner is Empty,
        run[j].inner is Empty,
    ensures
        i < j - 1,
        run[i + 1].inner is AwaitingResponse,
        run[j - 1].inner is Failed,
{
    assert(run[i].start_or_poll_step(run[i + 1], nows[i], delays[i], outcomes[i], results[i]));
    let k = j - 1;
    assert(run[k].start_or_poll_step(run[k + 1], nows[k], delays[k], outcomes[k], results[k]));
}

/// While no attempt succeeds, a run of `start_or_poll` calls starts at most
/// one request more than the attempts that were left at its start (one more
/// only if the slot was empty then): the budget bounds the number of requests.
pub proof fn lemma_attempt_budget<T, E: ErrorBounds>(
    run: Seq<RetryView<T, E>>,
    nows: Seq<u128>,
    delays: Seq<u16>,
    outcomes: Seq<Result<Option<Result<T, E>>, oneshot::Canceled>>,
    results: Seq<CanMakeProgress>,
)
    requires
        is_run(run, nows, delays, outcomes, results),
        forall|k: int| 0 <= k < run.len() ==> !(#[trigger] run[k].inner is Present),
    ensures
        dispatch_count(run) + chances(run.last()) <= chances(run[0]),
        dispatch_count(run) <= chances(run[0]),
    decreases run.len(),
{
    if run.len() > 1 {
        let n = nows.len() - 1;
        let shorter = run.drop_last();
        assert forall|k: int| 0 <= k < n implies #[trigger] shorter[k].start_or_poll_step(
            shorter[k + 1],
            nows.drop_last()[k],
            delays.drop_last()[k],
            outcomes.drop_last()[k],
            results.drop_last()[k],
        ) by {
            assert(run[k].start_or_poll_step(
                run[k + 1],
                nows[k],
                delays[k],
                outcomes[k],
                results[k],
            ));
        }
        assert forall|k: int| 0 <= k < shorter.len() implies !(#[trigger] shorter[k].inner is Present) by {
            assert(!(run[k].inner is Present));
        }
        lemma_attempt_budget(
            shorter,
            nows.drop_last(),
            delays.drop_last(),
            outcomes.drop_last(),
            results.drop_last(),
        );
        let prev = run[n];
        let last = run[n + 1];
        assert(prev.start_or_poll_step(last, nows[n], delays[n], outcomes[n], results[n]));
        assert(!(last.inner is Present));
        assert(shorter.last() == prev);
    }
}

/// A pending slot whose request succeeds gets its full budget of attempts
/// back, however many failures came before, and holds the delivered data.
pub proof fn lemma_success_restores_budget<T, E: ErrorBounds>(
    s: RetryView<T, E>,
    next: RetryView<T, E>,
    now: u128,
    delay: u16,
    v: T,
    r: CanMakeProgress,
)
    requires
        s.inner is AwaitingResponse,
        s.start_or_poll_step(next, now, delay, Ok(Some(Ok(v))), r),
    ensures
        next.inner == DataState::<T, E>::Present(v),
        next.attempts_left == s.max_attempts,
        next.next_allowed_attempt == now,
        r is AbleToMakeProgress,
{
}

/// A pending slot whose sending side was dropped before it sent anything
/// fails with [`DataStateError::SenderDropped`] and keeps its budget and its
/// next allowed attempt, to be retried like any other failure.
pub proof fn lemma_cancellation_is_retryable<T, E: ErrorBounds>(
    s: RetryView<T, E>,
    next: RetryView<T, E>,
    now: u128,
    delay: u16,
    c: oneshot::Canceled,
    r: CanMakeProgress,
)
    requires
        s.inner is AwaitingResponse,
        s.start_or_poll_step(next, now, delay, Err(c), r),
    ensures
        next.inner == DataState::<T, E>::Failed(DataStateError::SenderDropped(c)),
        next.attempts_left == s.attempts_left,
        next.next_allowed_attempt == s.next_allowed_attempt,
        r is AbleToMakeProgress,
{
}

/// A failed slot with no attempts left stays as it is, and every later call
/// reports that it cannot make progress.
pub proof fn lemma_exhausted_stays_failed<T, E: ErrorBounds>(
    s: RetryView<T, E>,
    next: RetryView<T, E>,
    now: u128,
    delay: u16,
    outcome: Result<Option<Result<T, E>>, oneshot::Canceled>,
    r: CanMakeProgress,
)
    requires
        s.inner is Failed,
        s.attempts_left == 0,
        s.start_or_poll_step(next, now, delay, outcome, r),
    ensures
        next == s,
        r is UnableToMakeProgress,
{
}

/// A request that is started with a delay drawn from `retry_delay_millis`
/// allows the next attempt at least `start` and less than `end` milliseconds
/// from now (at the largest time, where that sum does not fit), and a failed
/// slot is emptied for a retry only once `next_allowed_attempt` has come.
pub proof fn lemma_delay_bound<T, E: ErrorBounds>(
    s: RetryView<T, E>,
    next: RetryView<T, E>,
    now: u128,
    delay: u16,
    outcome: Result<Option<Result<T, E>>, oneshot::Canceled>,
    r: CanMakeProgress,
)
    requires
        s.start_or_poll_step(next, now, delay, outcome, r),
    ensures
        s.inner is Empty && s.retry_delay_millis.start <= delay < s.retry_delay_millis.end ==> {
            &&& now + s.retry_delay_millis.start <= next.next_allowed_attempt || next.next_allowed_attempt
                == u128::MAX
            &&& next.next_allowed_attempt < now + s.retry_delay_millis.end
        },
        s.inner is Failed && next.inner is Empty ==> s.next_allowed_attempt <= now,
{
}

} // verus!
