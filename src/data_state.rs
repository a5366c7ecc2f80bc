//! A slot that holds the lifecycle of one asynchronous request.

use futures::channel::oneshot;
use std::fmt::{Debug, Display};
use vstd::prelude::*;
use vstd::std_specs::convert::IntoSpec;

verus! {

/// The receiving end of `futures::channel::oneshot::channel`, opaque here.
#[verifier::external_type_specification]
#[verifier::external_body]
#[verifier::reject_recursive_types(T)]
pub struct ExReceiver<T>(oneshot::Receiver<T>);

/// The error of `futures::channel::oneshot::Receiver::try_recv` when the
/// sending side was dropped, opaque here.
#[verifier::external_type_specification]
#[verifier::external_body]
pub struct ExCanceled(oneshot::Canceled);

/// Relies on `futures::channel::oneshot::Receiver::try_recv`, a receive that
/// never blocks. What it returns depends on what the sending side has done so
/// far, so nothing is promised of it.
pub assume_specification<T>[ oneshot::Receiver::<T>::try_recv ](
    rx: &mut oneshot::Receiver<T>,
) -> Result<Option<T>, oneshot::Canceled>;

/// `anyhow::Error`, the default error type of a request, opaque here.
#[verifier::external_type_specification]
#[verifier::external_body]
pub struct ExAnyhowError(anyhow::Error);

/// Relies on `anyhow::Error::msg`, which makes an error out of a message.
#[verifier::external_body]
fn error_from_message(message: String) -> anyhow::Error {
    anyhow::Error::msg(message)
}

/// The bounds that an error type of a request is expected to meet.
pub trait ErrorBounds: Display + Send + Sync + 'static + Debug {}

impl<T: Display + Send + Sync + 'static + Debug> ErrorBounds for T {}

/// The ways in which a request can end without data.
#[derive(Debug)]
pub enum DataStateError<E: ErrorBounds> {
    /// The sending side was dropped before it sent a result.
    SenderDropped(oneshot::Canceled),
    /// The request completed with an error.
    ErrorResponse(E),
    /// An error made by application code, not by a request.
    FromE(E),
}

/// Tells the calling loop whether calling the same operation again could
/// change anything.
#[derive(Debug)]
pub enum CanMakeProgress {
    AbleToMakeProgress,
    UnableToMakeProgress,
}

/// The receiving end of a request that is under way.
#[derive(Debug)]
#[verifier::reject_recursive_types(T)]
#[verifier::reject_recursive_types(E)]
pub struct Awaiting<T, E: ErrorBounds>(pub oneshot::Receiver<Result<T, E>>);

/// Data that is not always available and that is made available by polling
/// a request until it completes.
#[derive(Debug)]
#[verifier::reject_recursive_types(T)]
#[verifier::reject_recursive_types(E)]
pub enum DataState<T, E: ErrorBounds = anyhow::Error> {
    /// No data and no request under way.
    Empty,
    /// A request is under way.
    AwaitingResponse(Awaiting<T, E>),
    /// The data is available.
    Present(T),
    /// The request failed.
    Failed(DataStateError<E>),
}

impl<T, E: ErrorBounds> DataState<T, E> {
    /// Starts a new request. Only meant for a slot in [`DataState::Empty`]: in
    /// any other state nothing is done and
    /// [`CanMakeProgress::UnableToMakeProgress`] is returned. `fetch_fn` is
    /// called exactly when the slot was empty.
    pub fn start_request<F, R>(&mut self, fetch_fn: F) -> (r: CanMakeProgress) where
        F: FnOnce() -> R,
        R: Into<Awaiting<T, E>>,
        requires
            *old(self) is Empty ==> fetch_fn.requires(()),
        ensures
            *old(self) is Empty ==> r is AbleToMakeProgress && *final(self) is AwaitingResponse,
            *old(self) is Empty ==> exists|p: R|
                {
                    &&& #[trigger] fetch_fn.ensures((), p)
                    &&& R::obeys_into_spec() ==> *final(self) == DataState::AwaitingResponse(
                        p.into_spec(),
                    )
                },
            *old(self) !is Empty ==> r is UnableToMakeProgress && *final(self) == *old(self),
    {
        if self.is_none() {
            *self = DataState::AwaitingResponse(fetch_fn().into());
            CanMakeProgress::AbleToMakeProgress
        } else {
            CanMakeProgress::UnableToMakeProgress
        }
    }

    /// The state that a pending slot moves to, given what a receive on its
    /// channel returned; `None` while nothing has been sent yet.
    pub open spec fn received(outcome: Result<Option<Result<T, E>>, oneshot::Canceled>) -> Option<
        Self,
    > {
        match outcome {
            Ok(Some(Ok(data))) => Some(DataState::Present(data)),
            Ok(Some(Err(e))) => Some(DataState::Failed(DataStateError::ErrorResponse(e))),
            Ok(None) => None,
            Err(c) => Some(DataState::Failed(DataStateError::SenderDropped(c))),
        }
    }

    /// What a pending slot may hold after a receive that returned
    /// `outcome`: the state that the outcome leads to, or still a pending
    /// request while nothing has been sent.
    pub open spec fn after_receive(
        outcome: Result<Option<Result<T, E>>, oneshot::Canceled>,
        next: Self,
    ) -> bool {
        match Self::received(outcome) {
            Some(s) => next == s,
            None => next is AwaitingResponse,
        }
    }

    /// A poll whose receive returned `outcome` may take the slot from `self`
    /// to `next`; a slot that is not pending is left as it is.
    pub open spec fn polled(
        self,
        next: Self,
        outcome: Result<Option<Result<T, E>>, oneshot::Canceled>,
    ) -> bool {
        if self is AwaitingResponse {
            Self::after_receive(outcome, next)
        } else {
            next == self
        }
    }

    /// The data, if it is available.
    pub open spec fn data(self) -> Option<T> {
        match self {
            DataState::Present(data) => Some(data),
            _ => None,
        }
    }

    /// Turns what a receive on the channel of a request returned into the
    /// state that the slot moves to, or `None` if the request is still under
    /// way.
    pub fn from_try_recv(outcome: Result<Option<Result<T, E>>, oneshot::Canceled>) -> (r: Option<
        Self,
    >)
        ensures
            r == Self::received(outcome),
    {
        match outcome {
            Ok(Some(Ok(data))) => Some(DataState::Present(data)),
            Ok(Some(Err(e))) => Some(DataState::Failed(DataStateError::ErrorResponse(e))),
            Ok(None) => None,
            Err(c) => Some(DataState::Failed(DataStateError::SenderDropped(c))),
        }
    }

    /// Checks without blocking whether the request has completed, and if so
    /// returns the state that the slot moves to.
    pub fn await_data(rx: &mut Awaiting<T, E>) -> (r: Option<Self>)
        ensures
            exists|outcome| r == #[trigger] Self::received(outcome),
    {
        let outcome = rx.0.try_recv();
        Self::from_try_recv(outcome)
    }

    /// Moves a pending slot on if its request has completed; does nothing in
    /// any other state. Returns `self` for chaining.
    pub fn poll(&mut self) -> (r: &mut Self)
        ensures
            exists|outcome| #[trigger] old(self).polled(*r, outcome),
            *final(self) == *final(r),
    {
        if let DataState::AwaitingResponse(rx) = self {
            let received = Self::await_data(rx);
            let ghost outcome = choose|outcome| received == #[trigger] Self::received(outcome);
            if let Some(new_state) = received {
                *self = new_state;
            }
            assert(old(self).polled(*self, outcome));
        } else {
            assert(old(self).polled(*self, Ok(None)));
        }
        self
    }

    /// Starts a request if the slot is empty, then polls it if it is pending.
    /// Returns [`CanMakeProgress::UnableToMakeProgress`] once the slot holds
    /// data or a failure.
    pub fn get<F, R>(&mut self, fetch_fn: F) -> (r: CanMakeProgress) where
        F: FnOnce() -> R,
        R: Into<Awaiting<T, E>>,
        requires
            *old(self) is Empty ==> fetch_fn.requires(()),
        ensures
            *old(self) is Empty ==> exists|p: R| #[trigger] fetch_fn.ensures((), p),
            *old(self) is Empty || *old(self) is AwaitingResponse ==> exists|outcome|
                #[trigger] Self::after_receive(outcome, *final(self)),
            *old(self) is Present || *old(self) is Failed ==> *final(self) == *old(self),
            r is UnableToMakeProgress <==> (*final(self) is Present || *final(self) is Failed),
    {
        if self.is_none() {
            let _ = self.start_request(fetch_fn);
        }
        match self.poll() {
            DataState::Present(_) | DataState::Failed(_) => CanMakeProgress::UnableToMakeProgress,
            _ => CanMakeProgress::AbleToMakeProgress,
        }
    }

    /// Returns the data if it is available. Does not poll.
    pub fn present(&self) -> (r: Option<&T>)
        ensures
            match r {
                Some(d) => self.data() == Some(*d),
                None => self.data() is None,
            },
    {
        if let Self::Present(data) = self {
            Some(data)
        } else {
            None
        }
    }

    /// Returns the data, for changing it in place, if it is available. Does
    /// not poll.
    pub fn present_mut(&mut self) -> (r: Option<&mut T>)
        ensures
            r is Some <==> *old(self) is Present,
            r is Some ==> *r->0 == old(self)->Present_0 && *final(self) == DataState::<T, E>::Present(*final(r->0)),
            r is None ==> *final(self) == *old(self),
    {
        if let Self::Present(data) = self {
            Some(data)
        } else {
            None
        }
    }

    /// Returns `true` if the data is available.
    pub fn is_present(&self) -> (r: bool)
        ensures
            r == (*self is Present),
    {
        matches!(self, Self::Present(..))
    }

    /// Returns `true` if there is neither data nor a request under way.
    pub fn is_none(&self) -> (r: bool)
        ensures
            r == (*self is Empty),
    {
        matches!(self, Self::Empty)
    }
}

impl CanMakeProgress {
    /// Returns `true` if this is [`CanMakeProgress::AbleToMakeProgress`].
    pub fn is_able_to_make_progress(&self) -> (r: bool)
        ensures
            r == (*self is AbleToMakeProgress),
    {
        matches!(self, Self::AbleToMakeProgress)
    }

    /// Returns `true` if this is [`CanMakeProgress::UnableToMakeProgress`].
    pub fn is_unable_to_make_progress(&self) -> (r: bool)
        ensures
            r == (*self is UnableToMakeProgress),
    {
        matches!(self, Self::UnableToMakeProgress)
    }
}

impl<T, E: ErrorBounds> From<oneshot::Receiver<Result<T, E>>> for Awaiting<T, E> {
    fn from(value: oneshot::Receiver<Result<T, E>>) -> (r: Self)
        ensures
            r.0 == value,
    {
        Self(value)
    }
}

impl<T, E: ErrorBounds> vstd::std_specs::convert::FromSpecImpl<oneshot::Receiver<Result<T, E>>> for Awaiting<T, E> {
    open spec fn obeys_from_spec() -> bool {
        true
    }

    open spec fn from_spec(v: oneshot::Receiver<Result<T, E>>) -> Self {
        Awaiting(v)
    }
}

/// A pending slot whose request delivers `Ok(v)` is moved by a poll to
/// [`DataState::Present`], where the data reads back as `v`.
pub proof fn lemma_success_round_trip<T, E: ErrorBounds>(
    s: DataState<T, E>,
    next: DataState<T, E>,
    v: T,
)
    requires
        s is AwaitingResponse,
        s.polled(next, Ok(Some(Ok(v)))),
    ensures
        next == DataState::<T, E>::Present(v),
        next.data() == Some(v),
{
}

/// A pending slot whose sending side was dropped before it sent anything is
/// moved by a poll to [`DataStateError::SenderDropped`], not left pending.
pub proof fn lemma_cancellation<T, E: ErrorBounds>(
    s: DataState<T, E>,
    next: DataState<T, E>,
    c: oneshot::Canceled,
)
    requires
        s is AwaitingResponse,
        s.polled(next, Err(c)),
    ensures
        next == DataState::<T, E>::Failed(DataStateError::SenderDropped(c)),
{
}

/// Whatever a receive returns, a poll never empties a pending slot: only a
/// reset can empty it.
pub proof fn lemma_poll_never_empties<T, E: ErrorBounds>(
    s: DataState<T, E>,
    next: DataState<T, E>,
    outcome: Result<Option<Result<T, E>>, oneshot::Canceled>,
)
    requires
        s is AwaitingResponse,
        s.polled(next, outcome),
    ensures
        !(next is Empty),
{
}

impl<T, E: ErrorBounds> Default for DataState<T, E> {
    fn default() -> (r: Self)
        ensures
            r is Empty,
    {
        DataState::Empty
    }
}

impl<T, E: ErrorBounds> AsRef<DataState<T, E>> for DataState<T, E> {
    fn as_ref(&self) -> (r: &DataState<T, E>)
        ensures
            *r == *self,
    {
        self
    }
}

impl<T, E: ErrorBounds> AsMut<DataState<T, E>> for DataState<T, E> {
    fn as_mut(&mut self) -> (r: &mut DataState<T, E>)
        ensures
            *r == *old(self),
            *final(self) == *final(r),
    {
        self
    }
}

impl<E: ErrorBounds> From<E> for DataStateError<E> {
    fn from(value: E) -> (r: Self)
        ensures
            r == DataStateError::FromE(value),
    {
        Self::FromE(value)
    }
}

impl<E: ErrorBounds> vstd::std_specs::convert::FromSpecImpl<E> for DataStateError<E> {
    open spec fn obeys_from_spec() -> bool {
        true
    }

    open spec fn from_spec(v: E) -> Self {
        DataStateError::FromE(v)
    }
}

impl From<&str> for DataStateError<anyhow::Error> {
    fn from(value: &str) -> (r: Self)
        ensures
            r is FromE,
    {
        value.to_string().into()
    }
}

impl vstd::std_specs::convert::FromSpecImpl<&str> for DataStateError<anyhow::Error> {
    open spec fn obeys_from_spec() -> bool {
        false
    }

    open spec fn from_spec(v: &str) -> Self {
        arbitrary()
    }
}

impl From<String> for DataStateError<anyhow::Error> {
    fn from(value: String) -> (r: Self)
        ensures
            r is FromE,
    {
        DataStateError::FromE(error_from_message(value))
    }
}

impl vstd::std_specs::convert::FromSpecImpl<String> for DataStateError<anyhow::Error> {
    open spec fn obeys_from_spec() -> bool {
        false
    }

    open spec fn from_spec(v: String) -> Self {
        arbitrary()
    }
}

} // verus!
