use vstd::prelude::*;
use vstd::utf8::encode_utf8;

use crate::context::{params_view, HttpContext, HttpContextInner, Params};
use crate::error::{DynError, RouteError, RouteErrorView};
use crate::head::{path_of, uri_path};
use crate::matcher::{
    holds_pattern, insert_outcome, lookup, matcher_at, matcher_clone, matcher_insert,
    matcher_new, matcher_routes,
};
use crate::response::{IntoBody, RespBody, Response};
use crate::service::Service;

verus! {

/// Wraps a handler and makes what it answers uniform: any body becomes a
/// [`RespBody`], any error a [`DynError`].
#[derive(Clone)]
pub struct DispatchService<S> {
    inner: S,
}

/// Whether `outcome` is what normalizing `answer` gives: a response keeps its
/// head and has its body converted, to the shape and the frames that the
/// conversion names; an error keeps its description.
pub open spec fn normalized<B: IntoBody, E: core::fmt::Display + core::fmt::Debug>(
    answer: Result<Response<B>, E>,
    outcome: Result<Response<RespBody>, DynError>,
) -> bool {
    match answer {
        Ok(response) => outcome matches Ok(uniform) && uniform.head == response.head && uniform.body@
            == response.body.body_view() && (uniform.body is Stream <==> response.body.streamed()),
        Err(error) => outcome matches Err(erased)
            && vstd::string::to_string_from_display_ensures::<E>(&error, erased.description),
    }
}

impl<S> DispatchService<S> {
    /// The handler that is wrapped.
    pub closed spec fn service(&self) -> S {
        self.inner
    }

    /// Wraps `service`.
    pub fn new(service: S) -> (dispatch: Self)
        ensures
            dispatch.service() == service,
    {
        Self { inner: service }
    }

    /// The handler that is wrapped.
    pub fn inner(&self) -> (service: &S)
        ensures
            *service == self.service(),
    {
        &self.inner
    }

    /// Makes a handler's answer uniform. A response keeps its head and has
    /// its body converted; an error is erased, keeping its description.
    pub fn normalize<B: IntoBody, E: core::fmt::Display + core::fmt::Debug>(
        &self,
        answer: Result<Response<B>, E>,
    ) -> (outcome: Result<Response<RespBody>, DynError>)
        ensures
            normalized(answer, outcome),
    {
        match answer {
            Ok(response) => {
                let Response { head, body } = response;
                Ok(Response { head, body: body.into_body() })
            },
            Err(error) => Err(DynError::erase(error)),
        }
    }
}

/// Whether `outcome` is what `handler` may give once it is made uniform: the
/// handler may answer `request` in the context `cx` with some answer, leaving
/// the context as `after`, and `outcome` is that answer normalized.
pub open spec fn dispatches<S, Rq, B>(
    handler: S,
    cx: HttpContext,
    request: Rq,
    after: HttpContext,
    outcome: Result<Response<RespBody>, DynError>,
) -> bool where
    S: Service<HttpContext, Rq, Response = Response<B>>,
    B: IntoBody,
    S::Error: core::fmt::Display + core::fmt::Debug,
 {
    exists|answer: Result<Response<B>, S::Error>| #[trigger]
        handler.answers(cx, request, after, answer) && normalized(answer, outcome)
}

impl<S, Rq, B> Service<HttpContext, Rq> for DispatchService<S> where
    S: Service<HttpContext, Rq, Response = Response<B>>,
    B: IntoBody,
    S::Error: core::fmt::Display + core::fmt::Debug,
 {
    type Response = Response<RespBody>;

    type Error = DynError;

    open spec fn answers(
        &self,
        cx: HttpContext,
        request: Rq,
        after: HttpContext,
        outcome: Result<Response<RespBody>, DynError>,
    ) -> bool {
        dispatches(self.service(), cx, request, after, outcome)
    }

    /// Calls the handler and makes its answer uniform.
    fn call(&self, cx: &mut HttpContext, request: Rq) -> (outcome: Result<
        Response<RespBody>,
        DynError,
    >) {
        let answer = self.inner.call(cx, request);
        self.normalize(answer)
    }
}

/// What routing decides for one request.
pub enum Routed<'a, S> {
    /// A route matches: the service registered under it, and the context to
    /// call it with.
    Matched { service: &'a DispatchService<S>, context: HttpContext },
    /// No route matches: the response to give.
    NotFound { response: Response<RespBody> },
}

/// Whether `context` is `cx` after routing: every field of `cx` unchanged,
/// and `params` attached.
pub open spec fn routed_from(
    context: HttpContext,
    cx: HttpContextInner,
    params: Seq<(Seq<char>, Seq<char>)>,
) -> bool {
    &&& context.peer == cx.peer
    &&& context.method == cx.method
    &&& context.uri == cx.uri
    &&& context.version == cx.version
    &&& context.headers == cx.headers
    &&& context.extensions == cx.extensions
    &&& context.params@ == params
}

/// The most parameters that the matcher takes in one pattern.
pub const MAX_PARAMS: usize = 25;

/// The number of braces that may open a parameter among `bytes` from `from`
/// on, where `seen` says whether a single opening brace stands before `from`.
///
/// A doubled brace stands for a literal brace. Before the first single
/// opening brace it opens nothing. Behind it the matcher may take a doubled
/// opening brace for the opening of a parameter, so there it counts once,
/// as every single opening brace does.
pub open spec fn openers(bytes: Seq<u8>, from: int, seen: bool) -> nat
    decreases bytes.len() - from,
{
    if from < 0 || from >= bytes.len() {
        0
    } else if from + 1 < bytes.len() && bytes[from + 1] == bytes[from] && (bytes[from] == 0x7b
        || bytes[from] == 0x7d) {
        if seen && bytes[from] == 0x7b {
            openers(bytes, from + 2, seen) + 1
        } else {
            openers(bytes, from + 2, seen)
        }
    } else if bytes[from] == 0x7b {
        openers(bytes, from + 1, true) + 1
    } else {
        openers(bytes, from + 1, seen)
    }
}

/// Whether `pattern` opens no more parameters than [`MAX_PARAMS`]: a bound
/// on its named parameters, each of which opens with a brace.
pub open spec fn within_limit(pattern: Seq<char>) -> bool {
    openers(encode_utf8(pattern), 0, false) <= MAX_PARAMS
}

/// Whether `route` opens no more parameters than [`MAX_PARAMS`].
pub fn check_limit(route: &str) -> (ok: bool)
    ensures
        ok == within_limit(route@),
{
    let bytes = route.as_bytes();
    let mut count: usize = 0;
    let mut seen = false;
    let mut i: usize = 0;
    while i < bytes.len()
        invariant
            i <= bytes@.len(),
            count <= i,
            openers(bytes@, 0, false) == count + openers(bytes@, i as int, seen),
        decreases bytes@.len() - i,
    {
        let byte = bytes[i];
        if i + 1 < bytes.len() && bytes[i + 1] == byte && (byte == 0x7b || byte == 0x7d) {
            if seen && byte == 0x7b {
                count += 1;
            }
            i += 2;
        } else {
            if byte == 0x7b {
                count += 1;
                seen = true;
            }
            i += 1;
        }
    }
    count <= MAX_PARAMS
}

/// A table of routes: path patterns, each with the service registered under
/// it. It is built once, by a [`RouterBuilder`], and only read afterwards.
pub struct Router<S> {
    inner: matchit::Router<usize>,
    services: Vec<DispatchService<S>>,
}

/// Collects the routes of a [`Router`].
pub struct RouterBuilder<S> {
    routes: matchit::Router<usize>,
    services: Vec<DispatchService<S>>,
}

/// Whether every route of the matcher holds the index of its own service:
/// the route inserted as number `i` holds `i`.
pub open spec fn slots_in_order(table: Seq<(Seq<char>, usize)>, services: int) -> bool {
    &&& table.len() == services
    &&& forall|i: int| 0 <= i < table.len() ==> (#[trigger] table[i]).1 == i
}

/// Whether no pattern stands twice in `table`.
pub open spec fn distinct_patterns(table: Seq<(Seq<char>, usize)>) -> bool {
    forall|i: int, j: int|
        0 <= i < j < table.len() ==> (#[trigger] table[i]).0 != (#[trigger] table[j]).0
}

/// Whether every pattern of `table` is within the limit on parameters.
pub open spec fn patterns_within_limit(table: Seq<(Seq<char>, usize)>) -> bool {
    forall|i: int| 0 <= i < table.len() ==> within_limit((#[trigger] table[i]).0)
}

/// What holds of the routes of every router and of every builder.
pub open spec fn well_formed(table: Seq<(Seq<char>, usize)>, services: int) -> bool {
    &&& slots_in_order(table, services)
    &&& distinct_patterns(table)
    &&& patterns_within_limit(table)
}

impl<S: Clone> Clone for Router<S> {
    /// A router with the same routes, over copies of the handlers.
    fn clone(&self) -> (copy: Self)
        ensures
            copy.table() == self.table(),
            copy.handlers().len() == self.handlers().len(),
    {
        proof {
            use_type_invariant(self);
        }
        Router { inner: matcher_clone(&self.inner), services: self.services.clone() }
    }
}

impl<S> Router<S> {
    #[verifier::type_invariant]
    spec fn inv(self) -> bool {
        well_formed(matcher_routes(self.inner), self.services@.len() as int)
    }

    /// The routes, in the order of registration: each pattern with the index
    /// of its service.
    pub closed spec fn table(&self) -> Seq<(Seq<char>, usize)> {
        matcher_routes(self.inner)
    }

    /// The handlers, in the order of registration.
    pub closed spec fn handlers(&self) -> Seq<S> {
        Seq::new(self.services@.len(), |i: int| self.services@[i].service())
    }

    /// Whether `slot` is the number of a route of this router: the route
    /// registered as number `slot`, with the handler of that number.
    pub open spec fn registered(&self, slot: usize) -> bool {
        &&& self.table().len() == self.handlers().len()
        &&& 0 <= slot < self.table().len()
        &&& self.table()[slot as int].1 == slot
    }

    /// Starts a router without routes.
    pub fn build() -> (builder: RouterBuilder<S>)
        ensures
            builder.table() == Seq::<(Seq<char>, usize)>::empty(),
            builder.handlers() == Seq::<S>::empty(),
    {
        Default::default()
    }

    /// Decides what to do with a request from what the matcher found for its
    /// path. Where it found a slot and parameters, the answer is the service
    /// in that slot and the post-routing context: what `cx` held, and the
    /// parameters, in their order. Where it found nothing, the answer is the
    /// response with status 404 and an empty body.
    pub fn decide(&self, found: Option<(usize, Vec<(String, String)>)>, cx: HttpContextInner) -> (routed:
        Routed<'_, S>)
        requires
            found matches Some((slot, _)) ==> slot < self.handlers().len(),
        ensures
            match found {
                Some((slot, captured)) => routed matches Routed::Matched { service, context }
                    && service.service() == self.handlers()[slot as int] && routed_from(
                    context,
                    cx,
                    params_view(captured@),
                ),
                None => routed matches Routed::NotFound { response } && response.status_code()
                    == 404 && response.body is Full && response.body@.len() == 0,
            },
    {
        match found {
            Some((slot, captured)) => {
                let context = HttpContext {
                    peer: cx.peer,
                    method: cx.method,
                    uri: cx.uri,
                    version: cx.version,
                    headers: cx.headers,
                    extensions: cx.extensions,
                    params: Params::new(captured),
                };
                Routed::Matched { service: &self.services[slot], context }
            },
            None => Routed::NotFound { response: Response::not_found() },
        }
    }

    /// Decides what to do with a request. Where a route matches its path, the
    /// answer is the service of that route and the post-routing context:
    /// what `cx` held, and the parameters that the route captured, in the
    /// order of its placeholders. Where none matches, the answer is the
    /// response with status 404 and an empty body.
    pub fn resolve(&self, cx: HttpContextInner) -> (routed: Routed<'_, S>)
        ensures
            match lookup(self.table(), uri_path(cx.uri)) {
                Some((slot, params)) => routed matches Routed::Matched { service, context }
                    && self.registered(slot) && service.service() == self.handlers()[slot as int]
                    && routed_from(context, cx, params),
                None => routed matches Routed::NotFound { response } && response.status_code()
                    == 404 && response.body is Full && response.body@.len() == 0,
            },
    {
        proof {
            use_type_invariant(self);
        }
        let path = path_of(&cx.uri);
        let found = matcher_at(&self.inner, path.as_str());
        self.decide(found, cx)
    }
}

impl<S, Rq, B> Service<(), (HttpContextInner, Rq)> for Router<S> where
    S: Service<HttpContext, Rq, Response = Response<B>>,
    B: IntoBody,
    S::Error: core::fmt::Display + core::fmt::Debug,
 {
    type Response = Response<RespBody>;

    type Error = DynError;

    /// Where a route matches the request's path, the outcome is what the
    /// service of that route gives in the post-routing context, unchanged.
    /// Where none matches, it is the response with status 404 and an empty
    /// body, never an error.
    open spec fn answers(
        &self,
        cx: (),
        request: (HttpContextInner, Rq),
        after: (),
        outcome: Result<Response<RespBody>, DynError>,
    ) -> bool {
        match lookup(self.table(), uri_path(request.0.uri)) {
            Some((slot, params)) => self.registered(slot) && exists|
                context: HttpContext,
                left: HttpContext,
            |
                routed_from(context, request.0, params) && #[trigger] dispatches(
                    self.handlers()[slot as int],
                    context,
                    request.1,
                    left,
                    outcome,
                ),
            None => outcome matches Ok(response) && response.status_code() == 404
                && response.body is Full && response.body@.len() == 0,
        }
    }

    /// Routes the request and calls the service of the route that matches.
    fn call(&self, cx: &mut (), request: (HttpContextInner, Rq)) -> (outcome: Result<
        Response<RespBody>,
        DynError,
    >) {
        let (inner, body) = request;
        match self.resolve(inner) {
            Routed::Matched { service, context } => {
                let mut context = context;
                let ghost before = context;
                let outcome = service.call(&mut context, body);
                assert(dispatches(service.service(), before, body, context, outcome));
                outcome
            },
            Routed::NotFound { response } => Ok(response),
        }
    }
}

impl<S> Default for RouterBuilder<S> {
    /// A builder without routes.
    fn default() -> (builder: Self)
        ensures
            builder.table() == Seq::<(Seq<char>, usize)>::empty(),
            builder.handlers() == Seq::<S>::empty(),
    {
        RouterBuilder::new()
    }
}

impl<S> RouterBuilder<S> {
    #[verifier::type_invariant]
    spec fn inv(self) -> bool {
        well_formed(matcher_routes(self.routes), self.services@.len() as int)
    }

    /// The routes registered so far, in the order of registration: each
    /// pattern with the index of its service.
    pub closed spec fn table(&self) -> Seq<(Seq<char>, usize)> {
        matcher_routes(self.routes)
    }

    /// The handlers registered so far, in the order of registration.
    pub closed spec fn handlers(&self) -> Seq<S> {
        Seq::new(self.services@.len(), |i: int| self.services@[i].service())
    }

    /// Whether `route` is the pattern of a route registered so far.
    pub open spec fn holds(&self, route: Seq<char>) -> bool {
        holds_pattern(self.table(), route)
    }

    /// Whether `route` can be registered beside the routes registered so
    /// far: it is within the limit on parameters, and the matcher takes it.
    pub open spec fn accepts(&self, route: Seq<char>) -> bool {
        within_limit(route) && insert_outcome(self.table(), route) is None
    }

    /// A builder without routes.
    pub fn new() -> (builder: Self)
        ensures
            builder.table() == Seq::<(Seq<char>, usize)>::empty(),
            builder.handlers() == Seq::<S>::empty(),
    {
        let builder = RouterBuilder { routes: matcher_new(), services: Vec::new() };
        assert(builder.handlers() =~= Seq::<S>::empty());
        builder
    }

    /// Registers `handler` under the pattern `route`. The pattern must be one
    /// that the matcher takes; [`RouterBuilder::try_route`] tests that. A
    /// pattern that is registered already is none: the routes stay distinct.
    pub fn route(self, route: &str, handler: S) -> (builder: Self)
        requires
            self.accepts(route@),
        ensures
            builder.table() == self.table().push((route@, self.table().len() as usize)),
            builder.handlers() == self.handlers().push(handler),
            !self.holds(route@),
            distinct_patterns(builder.table()),
    {
        proof {
            use_type_invariant(&self);
        }
        let ghost before = self.handlers();
        let RouterBuilder { mut routes, mut services } = self;
        let slot = services.len();
        match matcher_insert(&mut routes, route, slot) {
            Ok(()) => {
                services.push(DispatchService::new(handler));
                let builder = RouterBuilder { routes, services };
                assert(builder.handlers() =~= before.push(handler));
                builder
            },
            Err(_) => vstd::pervasive::unreached(),
        }
    }

    /// Registers `handler` under the pattern `route` where the pattern is
    /// within the limit on parameters and the matcher takes it. Where it is not,
    /// the error is [`RouteError::TooManyParams`] for a pattern over the
    /// limit, and else the matcher's reason. A pattern that is registered
    /// already is refused here, as a conflict: no router comes to hold a
    /// pattern twice.
    pub fn try_route(self, route: &str, handler: S) -> (r: Result<Self, RouteError>)
        ensures
            self.holds(route@) ==> r matches Err(RouteError::Conflict { .. }),
            r matches Ok(builder) ==> distinct_patterns(builder.table()),
            !within_limit(route@) ==> (r matches Err(error) && error@
                == RouteErrorView::TooManyParams),
            within_limit(route@) ==> match insert_outcome(self.table(), route@) {
                None => r matches Ok(builder) && builder.table() == self.table().push(
                    (route@, self.table().len() as usize),
                ) && builder.handlers() == self.handlers().push(handler),
                Some(reason) => r matches Err(error) && error@ == reason,
            },
    {
        proof {
            use_type_invariant(&self);
        }
        if !check_limit(route) {
            return Err(RouteError::TooManyParams);
        }
        let mut probe = matcher_clone(&self.routes);
        match matcher_insert(&mut probe, route, 0) {
            Ok(()) => Ok(self.route(route, handler)),
            Err(error) => Err(error),
        }
    }

    /// The router that holds the routes registered, no pattern twice.
    pub fn build(self) -> (router: Router<S>)
        ensures
            router.table() == self.table(),
            router.handlers() == self.handlers(),
            distinct_patterns(router.table()),
    {
        proof {
            use_type_invariant(&self);
        }
        let RouterBuilder { routes, services } = self;
        Router { inner: routes, services }
    }
}

} // verus!
