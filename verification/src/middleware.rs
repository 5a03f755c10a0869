//! Middleware reads and changes a request on its way to the endpoint, and the
//! response on its way back.
//!
//! A middleware is handed the request and a [`Next`]: the rest of the chain.
//! It may run the rest, before and after doing work of its own, or answer by
//! itself, and then nothing behind it runs. A `Next` can be run once: running
//! it uses it up.

use crate::error::HttpError;
use crate::request::Request;
use crate::response::Response;
use std::sync::Arc;
use vstd::prelude::*;

verus! {

/// A chain of handlers that can be entered at any place.
pub trait Chain {
    /// What running the chain from a place on may do with a request: the
    /// request as it is left behind, and the answer.
    spec fn proceeds(
        &self,
        from: usize,
        before: Request,
        after: Request,
        out: Result<Response, HttpError>,
    ) -> bool;

    /// Runs the chain from a place on.
    fn proceed(&self, from: usize, request: &mut Request) -> (out: Result<Response, HttpError>)
        ensures
            self.proceeds(from, *old(request), *final(request), out),
    ;
}

/// Represents the remaining part of the request handling chain.
pub struct Next<'a> {
    /// The chain.
    pub chain: &'a dyn Chain,
    /// The place in the chain from which this rest of it runs.
    pub position: usize,
}

impl<'a> Next<'a> {
    /// What running this rest of the chain may do with a request: what the
    /// chain does from its place on.
    pub open spec fn runs(
        self,
        before: Request,
        after: Request,
        out: Result<Response, HttpError>,
    ) -> bool {
        self.chain.proceeds(self.position, before, after, out)
    }

    /// Create a new `Next` instance: the rest of a chain from a place on. For
    /// an app, `App::rest_from` makes it and says which chain it is.
    pub fn new(chain: &'a dyn Chain, position: usize) -> (next: Self)
        ensures
            next == (Next { chain, position }),
    {
        Self { chain, position }
    }

    /// Execute the remaining part of the handling chain.
    pub fn run(self, request: &mut Request) -> (out: Result<Response, HttpError>)
        ensures
            self.runs(*old(request), *final(request), out),
    {
        self.chain.proceed(self.position, request)
    }
}

/// Middleware allows reading and modifying requests or responses during the
/// request handling process. It is often used for timeouts, compression and
/// the like.
pub trait Middleware: Send + Sync {
    /// What this middleware may do with a request when it is handed `next`:
    /// the request as it leaves it behind, and its answer. A middleware that
    /// says nothing here may do anything.
    open spec fn handles(
        &self,
        before: Request,
        next: Next<'_>,
        after: Request,
        out: Result<Response, HttpError>,
    ) -> bool {
        true
    }

    /// Handle this request and return a response. Run `next` to have the rest
    /// of the chain handle it.
    fn call_middleware(
        &self,
        request: &mut Request,
        next: Next<'_>,
    ) -> (out: Result<Response, HttpError>)
        ensures
            self.handles(*old(request), next, *final(request), out),
    ;
}

/// A middleware that is shared: a handle that can stand in any number of
/// chains at once.
pub struct SharedMiddleware {
    inner: Arc<dyn Middleware>,
}

impl SharedMiddleware {
    /// `Arc::new` on a middleware, as a handle to some middleware. A call
    /// through the handle is a call of the middleware behind it; that the
    /// handle does what that middleware does is taken on trust here.
    #[verifier::external_body]
    pub fn new<M: Middleware + 'static>(middleware: M) -> (shared: Self)
        ensures
            forall|before: Request, next: Next<'_>, after: Request, out: Result<Response, HttpError>|
                #[trigger] shared.handles(before, next, after, out) == middleware.handles(
                    before,
                    next,
                    after,
                    out,
                ),
    {
        SharedMiddleware { inner: Arc::new(middleware) }
    }
}

impl Clone for SharedMiddleware {
    /// `Arc::clone`: one more handle to the same middleware, taken on trust
    /// to be the same handle.
    #[verifier::external_body]
    fn clone(&self) -> (copy: Self)
        ensures
            copy == *self,
    {
        SharedMiddleware { inner: self.inner.clone() }
    }
}

impl Middleware for SharedMiddleware {
    closed spec fn handles(
        &self,
        before: Request,
        next: Next<'_>,
        after: Request,
        out: Result<Response, HttpError>,
    ) -> bool {
        (*self.inner).handles(before, next, after, out)
    }

    fn call_middleware(
        &self,
        request: &mut Request,
        next: Next<'_>,
    ) -> (out: Result<Response, HttpError>) {
        (*self.inner).call_middleware(request, next)
    }
}

impl Middleware for Arc<dyn Middleware> {
    open spec fn handles(
        &self,
        before: Request,
        next: Next<'_>,
        after: Request,
        out: Result<Response, HttpError>,
    ) -> bool {
        (**self).handles(before, next, after, out)
    }

    fn call_middleware(
        &self,
        request: &mut Request,
        next: Next<'_>,
    ) -> (out: Result<Response, HttpError>) {
        (**self).call_middleware(request, next)
    }
}

impl Middleware for Box<dyn Middleware> {
    open spec fn handles(
        &self,
        before: Request,
        next: Next<'_>,
        after: Request,
        out: Result<Response, HttpError>,
    ) -> bool {
        (**self).handles(before, next, after, out)
    }

    fn call_middleware(
        &self,
        request: &mut Request,
        next: Next<'_>,
    ) -> (out: Result<Response, HttpError>) {
        (**self).call_middleware(request, next)
    }
}

/// The middleware that answers by itself: it leaves the request alone, never
/// runs the rest of the chain, and answers with the empty response.
impl Middleware for () {
    open spec fn handles(
        &self,
        before: Request,
        next: Next<'_>,
        after: Request,
        out: Result<Response, HttpError>,
    ) -> bool {
        after == before && (out matches Ok(response) && response.is_blank())
    }

    fn call_middleware(
        &self,
        _request: &mut Request,
        _next: Next<'_>,
    ) -> (out: Result<Response, HttpError>) {
        Ok(Response::empty())
    }
}

} // verus!
