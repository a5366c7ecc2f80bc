//! Names for the bounds on the functions that send a request, so that callers
//! can reuse them. Each comes with an impl for every type that meets it.

use std::future::Future;
use vstd::prelude::*;

verus! {

/// `reqwest::Response`, the response to a request, opaque here.
#[verifier::external_type_specification]
#[verifier::external_body]
pub struct ExResponse(reqwest::Response);

/// `reqwest::Error`, the error of a request, opaque here.
#[verifier::external_type_specification]
#[verifier::external_body]
pub struct ExRequestError(reqwest::Error);

/// An async function that takes the outcome of a request and returns a value.
pub trait ResponseHandler<Fut, O>: Send + 'static + FnOnce(
    reqwest::Result<reqwest::Response>,
) -> Fut where Fut: BoundedFuture<O> {

}

impl<T, Fut, O> ResponseHandler<Fut, O> for T where
    T: Send + 'static + FnOnce(reqwest::Result<reqwest::Response>) -> Fut,
    Fut: BoundedFuture<O>,
 {

}

/// A function that takes the outcome of a request and hands it on to the
/// application.
pub trait DoneHandler<O>: 'static + Send + FnOnce(reqwest::Result<reqwest::Response>) -> O where
    O: BoundedFuture<()>,
 {

}

impl<T, O: BoundedFuture<()>> DoneHandler<O> for T where
    T: 'static + Send + FnOnce(reqwest::Result<reqwest::Response>) -> O,
 {

}

/// A future with the bounds that the runtime needs.
pub trait BoundedFuture<O>: Future<Output = O> + Send {

}

impl<T, O> BoundedFuture<O> for T where T: Future<Output = O> + Send {

}

/// A function that tells the UI that a request has completed.
pub trait UiCallBack: 'static + Send + FnOnce() {

}

impl<T> UiCallBack for T where T: 'static + Send + FnOnce() {

}

/// The types that a request may return.
pub trait ValidReturn: Send + 'static {

}

impl<T: Send + 'static> ValidReturn for T {

}

} // verus!
