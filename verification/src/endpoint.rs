//! The end of a chain: what answers a request that every middleware let
//! through.

use crate::error::HttpError;
use crate::request::Request;
use crate::response::Response;
use std::sync::Arc;
use vstd::prelude::*;

verus! {

/// An HTTP request processor.
pub trait Endpoint: Send + Sync {
    /// What this endpoint may do with a request: the request as it leaves it
    /// behind, and its answer. An endpoint that says nothing here may do
    /// anything.
    open spec fn serves(
        &self,
        before: Request,
        after: Request,
        out: Result<Response, HttpError>,
    ) -> bool {
        true
    }

    /// The endpoint handles the request and returns a response.
    fn call_endpoint(&self, request: &mut Request) -> (out: Result<Response, HttpError>)
        ensures
            self.serves(*old(request), *final(request), out),
    ;
}

impl Endpoint for Box<dyn Endpoint> {
    open spec fn serves(
        &self,
        before: Request,
        after: Request,
        out: Result<Response, HttpError>,
    ) -> bool {
        (**self).serves(before, after, out)
    }

    fn call_endpoint(&self, request: &mut Request) -> (out: Result<Response, HttpError>) {
        (**self).call_endpoint(request)
    }
}

impl Endpoint for Arc<dyn Endpoint> {
    open spec fn serves(
        &self,
        before: Request,
        after: Request,
        out: Result<Response, HttpError>,
    ) -> bool {
        (**self).serves(before, after, out)
    }

    fn call_endpoint(&self, request: &mut Request) -> (out: Result<Response, HttpError>) {
        (**self).call_endpoint(request)
    }
}

/// The endpoint that does nothing: it leaves the request alone and answers
/// with the empty response.
impl Endpoint for () {
    open spec fn serves(
        &self,
        before: Request,
        after: Request,
        out: Result<Response, HttpError>,
    ) -> bool {
        after == before && (out matches Ok(response) && response.is_blank())
    }

    fn call_endpoint(&self, _request: &mut Request) -> (out: Result<Response, HttpError>) {
        Ok(Response::empty())
    }
}

} // verus!
