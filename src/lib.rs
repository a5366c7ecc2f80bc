//! Non-blocking access to the outcome of an asynchronous request from a
//! synchronous loop (a UI frame, a game tick), with an optional retry policy.

pub mod data_state;
pub mod data_state_retry;
pub mod traits;

pub use data_state::{Awaiting, CanMakeProgress, DataState, DataStateError, ErrorBounds};
pub use data_state_retry::{
    wait_before_next_attempt, wait_before_next_attempt_at, DataStateRetry, RetryView,
};
pub use traits::{BoundedFuture, DoneHandler, ResponseHandler, UiCallBack, ValidReturn};
pub use futures::channel::oneshot;
pub use reqwest;
