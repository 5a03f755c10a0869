//! An endpoint with a chain of middleware in front of it.

use crate::endpoint::Endpoint;
use crate::error::HttpError;
use crate::middleware::{Chain, Middleware, Next, SharedMiddleware};
use crate::request::Request;
use crate::response::Response;
use vstd::prelude::*;

verus! {

/// Whether a middleware has an outcome only where the rest of the chain has
/// one: whatever it may do with a request when it is handed a continuation,
/// there is something that the continuation may do with some request.
pub open spec fn needs_rest(middleware: SharedMiddleware) -> bool {
    forall|before: Request, next: Next<'_>, after: Request, out: Result<Response, HttpError>|
        #[trigger] middleware.handles(before, next, after, out) ==> exists|
            request: Request,
            left: Request,
            answer: Result<Response, HttpError>,
        | #[trigger] next.runs(request, left, answer)
}

/// An App containing an endpoint and middlewares.
pub struct App<E: Endpoint> {
    endpoint: E,
    middlewares: Vec<SharedMiddleware>,
}

impl<E: Endpoint> App<E> {
    /// The middlewares of this app, in the order in which a request meets
    /// them.
    pub closed spec fn layers(&self) -> Seq<SharedMiddleware> {
        self.middlewares@
    }

    /// The endpoint of this app.
    pub closed spec fn terminal(&self) -> E {
        self.endpoint
    }

    /// Create an app from an endpoint, with no middleware.
    pub fn new(endpoint: E) -> (app: Self)
        ensures
            app.terminal() == endpoint,
            app.layers() == Seq::<SharedMiddleware>::empty(),
    {
        Self { endpoint, middlewares: Vec::new() }
    }

    /// Add a shared middleware to this app, behind those it has.
    pub fn add_middleware(&mut self, middleware: SharedMiddleware)
        ensures
            final(self).terminal() == old(self).terminal(),
            final(self).layers() == old(self).layers().push(middleware),
    {
        self.middlewares.push(middleware);
    }

    /// Add a middleware to this app, behind those it has.
    pub fn middleware<M: Middleware + 'static>(self, middleware: M) -> (app: Self)
        ensures
            app.terminal() == self.terminal(),
            app.layers().len() == self.layers().len() + 1,
            app.layers().drop_last() == self.layers(),
            forall|before: Request, next: Next<'_>, after: Request, out: Result<Response, HttpError>|
                #[trigger] app.layers().last().handles(before, next, after, out)
                    == middleware.handles(before, next, after, out),
    {
        let mut app = self;
        app.add_middleware(SharedMiddleware::new(middleware));
        assert(app.layers().drop_last() =~= self.layers());
        app
    }

    /// Run the app with a provided request: the request goes through the
    /// middlewares in their order, and through the endpoint if they all let
    /// it.
    pub fn run(&self, request: Request) -> (out: Result<Response, HttpError>)
        ensures
            exists|after: Request| self.proceeds(0, request, after, out),
    {
        let mut request = request;
        self.rest_from(0).run(&mut request)
    }

    /// The rest of this app's chain from a place on: what a middleware at the
    /// place before it is handed.
    pub fn rest_from(&self, position: usize) -> (next: Next<'_>)
        ensures
            next == (Next { chain: self, position }),
    {
        Next { chain: self, position }
    }

    /// An app holds no more middlewares than can be counted.
    pub proof fn layers_fit(&self)
        ensures
            self.layers().len() <= usize::MAX,
    {
        assert(self.middlewares.len() == self.middlewares@.len());
    }

    /// The rest of this app's chain from a place on.
    pub proof fn rest(&self, position: usize) -> (next: Next<'_>)
        ensures
            next == (Next { chain: self, position }),
    {
        Next { chain: self, position }
    }

    /// From a place where a middleware stands, the chain does what that
    /// middleware does when it is handed the chain behind it. Past the last
    /// middleware, the chain does what the endpoint does.
    pub proof fn chain_unfolds(
        &self,
        from: usize,
        before: Request,
        after: Request,
        out: Result<Response, HttpError>,
    )
        ensures
            from < self.layers().len() ==> self.proceeds(from, before, after, out)
                == self.layers()[from as int].handles(
                before,
                (Next { chain: self, position: (from + 1) as usize }),
                after,
                out,
            ),
            from >= self.layers().len() ==> self.proceeds(from, before, after, out)
                == self.terminal().serves(before, after, out),
    {
    }

    /// Where every middleware from a place on has an outcome only where the
    /// rest of the chain has one, the chain from that place on has an outcome
    /// only where the endpoint has one: no answer of such a chain without an
    /// answer that the endpoint may give.
    pub proof fn outcome_needs_endpoint(
        &self,
        from: usize,
        before: Request,
        after: Request,
        out: Result<Response, HttpError>,
    )
        requires
            forall|i: int| from <= i < self.layers().len() ==> needs_rest(#[trigger] self.layers()[i]),
            self.proceeds(from, before, after, out),
        ensures
            exists|request: Request, left: Request, answer: Result<Response, HttpError>|
                self.terminal().serves(request, left, answer),
        decreases self.layers().len() - from,
    {
        self.layers_fit();
        if from < self.layers().len() {
            let behind = self.rest((from + 1) as usize);
            assert(self.layers()[from as int].handles(before, behind, after, out));
            let (request, left, answer) = choose|
                request: Request,
                left: Request,
                answer: Result<Response, HttpError>,
            | behind.runs(request, left, answer);
            self.outcome_needs_endpoint((from + 1) as usize, request, left, answer);
        } else {
            assert(self.terminal().serves(before, after, out));
        }
    }

    /// A middleware that answers by itself, whatever it is handed, cuts the
    /// chain short: what the chain does from its place on is decided by that
    /// middleware alone, and by nothing that stands behind it.
    pub proof fn short_circuit(
        &self,
        from: usize,
        any: Next<'_>,
        before: Request,
        after: Request,
        out: Result<Response, HttpError>,
    )
        requires
            from < self.layers().len(),
            forall|other: Next<'_>|
                #[trigger] self.layers()[from as int].handles(before, other, after, out)
                    == self.layers()[from as int].handles(before, any, after, out),
        ensures
            self.proceeds(from, before, after, out) == self.layers()[from as int].handles(
                before,
                any,
                after,
                out,
            ),
    {
        let behind = self.rest((from + 1) as usize);
        assert(self.layers()[from as int].handles(before, behind, after, out)
            == self.layers()[from as int].handles(before, any, after, out));
    }
}

impl<E: Endpoint> Chain for App<E> {
    closed spec fn proceeds(
        &self,
        from: usize,
        before: Request,
        after: Request,
        out: Result<Response, HttpError>,
    ) -> bool {
        if from < self.middlewares@.len() {
            self.middlewares@[from as int].handles(
                before,
                (Next { chain: self, position: (from + 1) as usize }),
                after,
                out,
            )
        } else {
            self.endpoint.serves(before, after, out)
        }
    }

    fn proceed(&self, from: usize, request: &mut Request) -> (out: Result<Response, HttpError>) {
        if from < self.middlewares.len() {
            self.middlewares[from].call_middleware(request, self.rest_from(from + 1))
        } else {
            self.endpoint.call_endpoint(request)
        }
    }
}

impl<E: Endpoint + Default> Default for App<E> {
    fn default() -> (app: Self)
        ensures
            app.layers() == Seq::<SharedMiddleware>::empty(),
    {
        Self::new(E::default())
    }
}

} // verus!
