use vstd::prelude::*;

use crate::request::{build_for_style, describes, headers_view, url_parses, FetchError, RequestDescriptor};
use crate::routes::{Route, Surface};

verus! {

/// The status of every successful reply.
pub const OK_STATUS: u16 = 200;

/// Where one exchange stands between its two suspension points.
#[derive(Clone, Copy, Debug, PartialEq, Eq, Structural)]
pub enum Phase {
    /// The request was handed to the host; its response is awaited.
    AwaitingResponse,
    /// The response arrived; its body is being drained.
    AwaitingBody,
    /// A reply or a failure was produced; nothing more happens.
    Finished,
}

/// What the driver of an exchange must do next.
#[derive(Clone, Debug)]
pub enum Action {
    /// Perform one outbound call with `request`, through `surface`.
    Send { surface: Surface, request: RequestDescriptor },
    /// Drain the body of the response that arrived.
    ReadBody,
    /// Answer the inbound request with `status` and exactly `body`.
    Reply { status: u16, body: Vec<u8> },
    /// Answer the inbound request with a failure.
    Fail(FetchError),
}

/// One inbound request being served: the route chosen and the phase reached.
/// It holds no data of any earlier exchange.
#[derive(Clone, Copy, Debug)]
pub struct Exchange {
    pub route: Route,
    pub phase: Phase,
}

/// Whether `a` answers with status 200 and exactly the bytes `body`.
pub open spec fn relays(a: Action, body: Seq<u8>) -> bool {
    a matches Action::Reply { status, body: out } && status == OK_STATUS && out@ == body
}

/// Whether `a` performs one outbound call of `request` through `surface`.
pub open spec fn sends(a: Action, surface: Surface, request: RequestDescriptor) -> bool {
    a matches Action::Send { surface: s, request: q } && s == surface && q == request
}

/// The start of an exchange for `route` against `upstream`: one outbound call
/// in the route's style when the URL parses; else an `InvalidUrl` failure and
/// no call.
pub open spec fn start_step(route: Route, upstream: Seq<char>, e: Exchange, a: Action) -> bool {
    &&& e.route == route
    &&& if url_parses(upstream) {
        &&& e.phase == Phase::AwaitingResponse
        &&& a matches Action::Send { surface, request } && surface == route.surface && describes(
            request,
            route.style,
            upstream,
        )
    } else {
        &&& e.phase == Phase::Finished
        &&& a matches Action::Fail(FetchError::InvalidUrl)
    }
}

/// The step taken when the outbound call completes with `outcome`.
pub open spec fn response_step(outcome: Result<(), FetchError>, phase: Phase, a: Action) -> bool {
    match outcome {
        Ok(()) => phase == Phase::AwaitingBody && a is ReadBody,
        Err(e) => phase == Phase::Finished && a == Action::Fail(e),
    }
}

/// The step taken when the body drain completes with `body`.
pub open spec fn body_step(body: Result<Vec<u8>, FetchError>, a: Action) -> bool {
    match body {
        Ok(b) => relays(a, b@),
        Err(e) => a == Action::Fail(e),
    }
}

impl Exchange {
    /// Starts serving `route`, whose upstream is `upstream`.
    pub fn start(route: Route, upstream: &str) -> (r: (Exchange, Action))
        ensures
            start_step(route, upstream@, r.0, r.1),
    {
        match build_for_style(route.style, upstream) {
            Ok(request) => (
                Exchange { route, phase: Phase::AwaitingResponse },
                Action::Send { surface: route.surface, request },
            ),
            Err(e) => (Exchange { route, phase: Phase::Finished }, Action::Fail(e)),
        }
    }

    /// Takes the outcome of the outbound call: on success the body is drained
    /// next; a failure is passed on unchanged.
    pub fn on_response(&mut self, outcome: Result<(), FetchError>) -> (a: Action)
        requires
            old(self).phase == Phase::AwaitingResponse,
        ensures
            final(self).route == old(self).route,
            response_step(outcome, final(self).phase, a),
    {
        match outcome {
            Ok(()) => {
                self.phase = Phase::AwaitingBody;
                Action::ReadBody
            },
            Err(e) => {
                self.phase = Phase::Finished;
                Action::Fail(e)
            },
        }
    }

    /// Takes the drained body: it is relayed byte for byte with status 200;
    /// a failure is passed on unchanged.
    pub fn on_body(&mut self, body: Result<Vec<u8>, FetchError>) -> (a: Action)
        requires
            old(self).phase == Phase::AwaitingBody,
        ensures
            final(self).route == old(self).route,
            final(self).phase == Phase::Finished,
            body_step(body, a),
    {
        self.phase = Phase::Finished;
        match body {
            Ok(bytes) => Action::Reply { status: OK_STATUS, body: bytes },
            Err(e) => Action::Fail(e),
        }
    }
}

/// Whether two sent requests make the same call: same target, method,
/// headers and redirect policy.
pub open spec fn same_call(a1: Action, a2: Action) -> bool {
    &&& a1 is Send
    &&& a2 is Send
    &&& a1->request.url@ == a2->request.url@
    &&& a1->request.method == a2->request.method
    &&& headers_view(a1->request.headers@) == headers_view(a2->request.headers@)
    &&& a1->request.redirect == a2->request.redirect
}

/// Every surface and construction style fetches from the same target: when
/// two exchanges start against one upstream, both send to that URL with GET
/// and the follow policy (or both fail with `InvalidUrl`), and the same
/// upstream body comes back from either as the same bytes.
pub proof fn lemma_styles_agree(
    r1: Route,
    r2: Route,
    upstream: Seq<char>,
    e1: Exchange,
    a1: Action,
    e2: Exchange,
    a2: Action,
    body: Vec<u8>,
    x1: Action,
    x2: Action,
)
    requires
        start_step(r1, upstream, e1, a1),
        start_step(r2, upstream, e2, a2),
        body_step(Ok(body), x1),
        body_step(Ok(body), x2),
    ensures
        url_parses(upstream) ==> {
            &&& a1 is Send
            &&& a2 is Send
            &&& a1->request.url@ == upstream
            &&& a2->request.url@ == upstream
            &&& a1->request.method == a2->request.method
            &&& a1->request.redirect == a2->request.redirect
        },
        !url_parses(upstream) ==> a1 == a2,
        x1 is Reply && x2 is Reply,
        x1->Reply_body@ == body@,
        x2->Reply_body@ == body@,
        x1->status == x2->status,
{
}

/// Serving the same request twice makes two calls, identical, and each reply
/// carries the body of its own call: nothing from the first is reused.
pub proof fn lemma_repeat_fetches_anew(
    route: Route,
    upstream: Seq<char>,
    e1: Exchange,
    a1: Action,
    e2: Exchange,
    a2: Action,
    b1: Vec<u8>,
    b2: Vec<u8>,
    x1: Action,
    x2: Action,
)
    requires
        start_step(route, upstream, e1, a1),
        start_step(route, upstream, e2, a2),
        body_step(Ok(b1), x1),
        body_step(Ok(b2), x2),
    ensures
        url_parses(upstream) ==> same_call(a1, a2),
        relays(x1, b1@),
        relays(x2, b2@),
{
}

} // verus!
