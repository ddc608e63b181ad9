use vstd::prelude::*;

use crate::context::{HttpContextInner, PeerAddr};
use crate::service::Service;

verus! {

/// One decoded request: its head and its body.
pub struct Request<B> {
    pub method: http::Method,
    pub uri: http::Uri,
    pub version: http::Version,
    pub headers: http::HeaderMap<http::HeaderValue>,
    pub extensions: http::Extensions,
    pub body: B,
}

/// The pre-routing context of `request` on a connection to `peer`: the peer
/// and every part of the request's head, unchanged.
pub open spec fn context_of<B>(peer: PeerAddr, request: Request<B>) -> HttpContextInner {
    HttpContextInner {
        peer,
        method: request.method,
        uri: request.uri,
        version: request.version,
        headers: request.headers,
        extensions: request.extensions,
    }
}

/// The root service of one connection: it knows the peer and hands each
/// request of the connection to the service that it wraps.
#[derive(Clone)]
pub struct MotoreService<S> {
    peer: PeerAddr,
    inner: S,
}

impl<S> MotoreService<S> {
    /// The peer of the connection.
    pub closed spec fn peer_addr(&self) -> PeerAddr {
        self.peer
    }

    /// The service that is wrapped.
    pub closed spec fn service(&self) -> S {
        self.inner
    }

    /// The root service of a connection to `peer`, over `inner`.
    pub fn new(peer: PeerAddr, inner: S) -> (root: Self)
        ensures
            root.peer_addr() == peer,
            root.service() == inner,
    {
        MotoreService { peer, inner }
    }

    /// The peer of the connection.
    pub fn peer(&self) -> (peer: PeerAddr)
        ensures
            peer == self.peer_addr(),
    {
        self.peer
    }

    /// The service that is wrapped.
    pub fn inner(&self) -> (service: &S)
        ensures
            *service == self.service(),
    {
        &self.inner
    }

    /// Splits a request into its pre-routing context and its body.
    pub fn prepare<B>(&self, request: Request<B>) -> (parts: (HttpContextInner, B))
        ensures
            parts.0 == context_of(self.peer_addr(), request),
            parts.1 == request.body,
    {
        let Request { method, uri, version, headers, extensions, body } = request;
        (HttpContextInner { peer: self.peer, method, uri, version, headers, extensions }, body)
    }

    /// Answers one request: builds its pre-routing context and calls the
    /// wrapped service with it. The outcome is the service's, unchanged.
    pub fn call<B>(&self, request: Request<B>) -> (outcome: Result<S::Response, S::Error>) where
        S: Service<(), (HttpContextInner, B)>,

        ensures
            self.service().answers(
                (),
                (context_of(self.peer_addr(), request), request.body),
                (),
                outcome,
            ),
    {
        let parts = self.prepare(request);
        let mut unit = ();
        self.inner.call(&mut unit, parts)
    }
}

} // verus!
