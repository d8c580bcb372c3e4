//! The path of one request through the proxy: CONNECT requests become
//! tunnels, others run the request handlers, go upstream unless a handler
//! answered, and run the response handlers.

use vstd::prelude::*;

use crate::headers::{empty_headers, header_table, no_headers};
use crate::request::{Method, Request, Version};
use crate::response::{Response, StatusCode};
use crate::uri::opt_chars;

verus! {

/// What a request handler asks for.
#[derive(Clone, Debug)]
pub enum Forward {
    /// Go on with the request unchanged.
    DoNothing,
    /// Go on with this request instead.
    Modify(Request),
    /// Answer with this response without contacting upstream.
    Respond(Response),
}

/// What a response handler asks for.
#[derive(Clone, Debug)]
pub enum Reverse {
    DoNothing,
    /// Go on with this response instead.
    Modify(Response),
}

/// The two paths a request may take.
#[derive(Clone, Copy, Debug, PartialEq, Eq, Structural)]
pub enum Route {
    Tunnel,
    Forward,
}

/// `CONNECT` requests are tunneled; every other request is forwarded.
pub fn dispatch(request: &Request) -> (r: Route)
    ensures
        r == (if request.method == Method::Connect { Route::Tunnel } else { Route::Forward }),
{
    if request.method == Method::Connect {
        Route::Tunnel
    } else {
        Route::Forward
    }
}

/// The `host:port` a `CONNECT` request asks to reach.
pub fn tunnel_target(request: &Request) -> (r: Option<String>)
    ensures
        opt_chars(r) == opt_chars(request.uri.authority),
{
    match &request.uri.authority {
        Some(a) => Some(a.clone()),
        None => None,
    }
}

/// A response with no header and an empty body, answering `request`.
pub open spec fn is_bare_response(r: Response, status: u16, request: Request) -> bool {
    &&& r.status.code == status
    &&& r.version == Version::Http11
    &&& header_table(r.headers) == no_headers()
    &&& r.payload@.len() == 0
    &&& r.request == request
}

fn bare_response(status: StatusCode, request: Request) -> (r: Response)
    ensures
        is_bare_response(r, status.code, request),
{
    Response { status, version: Version::Http11, headers: empty_headers(), payload: Vec::new(), request }
}

/// The answer to a `CONNECT` whose target was reached: the tunnel is open.
pub fn tunnel_established(request: Request) -> (r: Response)
    ensures
        is_bare_response(r, 200, request),
{
    bare_response(StatusCode::ok(), request)
}

/// The answer when upstream or a tunnel target cannot be reached.
pub fn bad_gateway(request: Request) -> (r: Response)
    ensures
        is_bare_response(r, 502, request),
{
    bare_response(StatusCode::bad_gateway(), request)
}

/// The answer to a request that failed authentication.
pub fn proxy_authentication_required(request: Request) -> (r: Response)
    ensures
        is_bare_response(r, 407, request),
{
    bare_response(StatusCode::proxy_authentication_required(), request)
}

/// Where a forwarded request stands.
#[derive(Clone, Debug)]
pub enum Stage {
    /// Request handler `next` is to see `request`.
    Requesting { next: usize, request: Request },
    /// `request` is to be sent upstream.
    Upstream { request: Request },
    /// Response handler `next` is to see `response`.
    Responding { next: usize, response: Response },
    /// `response` is to be returned to the client.
    Delivering { response: Response },
}

/// What the driver of a forwarded request does next.
#[derive(Clone, Copy, Debug, PartialEq, Eq, Structural)]
pub enum Action {
    /// Give the current request to request handler `i`.
    CallOnRequest(usize),
    /// Send the current request upstream.
    SendUpstream,
    /// Give the current response to response handler `i`.
    CallOnResponse(usize),
    /// Return the current response to the client.
    Deliver,
}

/// What the driver reports back.
#[derive(Clone, Debug)]
pub enum Event {
    /// A request handler's directive; a failed handler counts as `DoNothing`.
    Forwarded(Forward),
    /// A response handler's directive; a failed handler counts as `DoNothing`.
    Reversed(Reverse),
    /// Upstream's response, or `None` where upstream could not be reached.
    Answered(Option<Response>),
}

pub open spec fn action_of(stage: Stage) -> Action {
    match stage {
        Stage::Requesting { next, .. } => Action::CallOnRequest(next),
        Stage::Upstream { .. } => Action::SendUpstream,
        Stage::Responding { next, .. } => Action::CallOnResponse(next),
        Stage::Delivering { .. } => Action::Deliver,
    }
}

/// Request handler `next` on, or upstream once all have run.
pub open spec fn requesting(handlers: usize, next: int, request: Request) -> Stage {
    if next < handlers {
        Stage::Requesting { next: next as usize, request }
    } else {
        Stage::Upstream { request }
    }
}

/// Response handler `next` on, or delivery once all have run.
pub open spec fn responding(handlers: usize, next: int, response: Response) -> Stage {
    if next < handlers {
        Stage::Responding { next: next as usize, response }
    } else {
        Stage::Delivering { response }
    }
}

/// Whether the driver may report `event` at `stage`.
pub open spec fn expects(stage: Stage, event: Event) -> bool {
    match stage {
        Stage::Requesting { .. } => event is Forwarded,
        Stage::Upstream { .. } => event is Answered,
        Stage::Responding { .. } => event is Reversed,
        Stage::Delivering { .. } => false,
    }
}

/// How `event` moves a request from `stage` to `after`. Upstream's response
/// is recorded as answering the request that was sent.
pub open spec fn next_stage(handlers: usize, stage: Stage, event: Event, after: Stage) -> bool {
    match (stage, event) {
        (Stage::Requesting { next, request }, Event::Forwarded(f)) => match f {
            Forward::DoNothing => after == requesting(handlers, next + 1, request),
            Forward::Modify(r) => after == requesting(handlers, next + 1, r),
            Forward::Respond(s) => after == responding(handlers, 0, s),
        },
        (Stage::Upstream { request }, Event::Answered(a)) => match a {
            Some(resp) => after == responding(handlers, 0, Response { request, ..resp }),
            None => {
                if handlers > 0 {
                    after matches Stage::Responding { next, response } && next == 0 && is_bare_response(response, 502, request)
                } else {
                    after matches Stage::Delivering { response } && is_bare_response(response, 502, request)
                }
            },
        },
        (Stage::Responding { next, response }, Event::Reversed(v)) => match v {
            Reverse::DoNothing => after == responding(handlers, next + 1, response),
            Reverse::Modify(r) => after == responding(handlers, next + 1, r),
        },
        _ => false,
    }
}

/// One forwarded request, driven handler by handler.
#[derive(Clone, Debug)]
pub struct ForwardPath {
    pub handlers: usize,
    pub stage: Stage,
}

impl ForwardPath {
    pub open spec fn wf(&self) -> bool {
        match self.stage {
            Stage::Requesting { next, .. } => next < self.handlers,
            Stage::Responding { next, .. } => next < self.handlers,
            _ => true,
        }
    }

    /// Starts forwarding `request` through `handlers` handlers.
    pub fn start(handlers: usize, request: Request) -> (r: ForwardPath)
        ensures
            r.wf(),
            r.handlers == handlers,
            r.stage == requesting(handlers, 0, request),
    {
        if 0 < handlers {
            ForwardPath { handlers, stage: Stage::Requesting { next: 0, request } }
        } else {
            ForwardPath { handlers, stage: Stage::Upstream { request } }
        }
    }

    pub fn action(&self) -> (r: Action)
        ensures
            r == action_of(self.stage),
    {
        match &self.stage {
            Stage::Requesting { next, .. } => Action::CallOnRequest(*next),
            Stage::Upstream { .. } => Action::SendUpstream,
            Stage::Responding { next, .. } => Action::CallOnResponse(*next),
            Stage::Delivering { .. } => Action::Deliver,
        }
    }

    /// Whether `event` may be reported now.
    pub fn accepts(&self, event: &Event) -> (r: bool)
        ensures
            r == expects(self.stage, *event),
    {
        match (&self.stage, event) {
            (Stage::Requesting { .. }, Event::Forwarded(_)) => true,
            (Stage::Upstream { .. }, Event::Answered(_)) => true,
            (Stage::Responding { .. }, Event::Reversed(_)) => true,
            _ => false,
        }
    }

    /// The request a request handler sees, or that goes upstream.
    pub fn request(&self) -> (r: Option<&Request>)
        ensures
            match self.stage {
                Stage::Requesting { request, .. } => r == Some(&request),
                Stage::Upstream { request } => r == Some(&request),
                _ => r is None,
            },
    {
        match &self.stage {
            Stage::Requesting { request, .. } => Some(request),
            Stage::Upstream { request } => Some(request),
            _ => None,
        }
    }

    /// The response a response handler sees, or that goes to the client.
    pub fn response(&self) -> (r: Option<&Response>)
        ensures
            match self.stage {
                Stage::Responding { response, .. } => r == Some(&response),
                Stage::Delivering { response } => r == Some(&response),
                _ => r is None,
            },
    {
        match &self.stage {
            Stage::Responding { response, .. } => Some(response),
            Stage::Delivering { response } => Some(response),
            _ => None,
        }
    }

    /// Takes the driver's report of what the last action gave.
    pub fn step(self, event: Event) -> (r: ForwardPath)
        requires
            self.wf(),
            expects(self.stage, event),
        ensures
            r.wf(),
            r.handlers == self.handlers,
            next_stage(self.handlers, self.stage, event, r.stage),
    {
        let handlers = self.handlers;
        let after = match (self.stage, event) {
            (Stage::Requesting { next, request }, Event::Forwarded(f)) => {
                let request = match f {
                    Forward::DoNothing => request,
                    Forward::Modify(r) => r,
                    Forward::Respond(s) => {
                        return ForwardPath { handlers, stage: Self::responding_from(handlers, 0, s) };
                    },
                };
                if next + 1 < handlers {
                    Stage::Requesting { next: next + 1, request }
                } else {
                    Stage::Upstream { request }
                }
            },
            (Stage::Upstream { request }, Event::Answered(a)) => {
                let response = match a {
                    Some(resp) => Response { request, ..resp },
                    None => bad_gateway(request),
                };
                Self::responding_from(handlers, 0, response)
            },
            (Stage::Responding { next, response }, Event::Reversed(v)) => {
                let response = match v {
                    Reverse::DoNothing => response,
                    Reverse::Modify(r) => r,
                };
                Self::responding_from(handlers, next + 1, response)
            },
            (s, _) => {
                proof {
                    assert(false);
                }
                s
            },
        };
        ForwardPath { handlers, stage: after }
    }

    fn responding_from(handlers: usize, next: usize, response: Response) -> (r: Stage)
        ensures
            r == responding(handlers, next as int, response),
    {
        if next < handlers {
            Stage::Responding { next, response }
        } else {
            Stage::Delivering { response }
        }
    }

    /// The response to return to the client, once delivery is due.
    pub fn into_response(self) -> (r: Option<Response>)
        ensures
            match self.stage {
                Stage::Delivering { response } => r == Some(response),
                _ => r is None,
            },
    {
        match self.stage {
            Stage::Delivering { response } => Some(response),
            _ => None,
        }
    }
}

/// With no handler, a forwarded request goes upstream as it came, and the
/// client gets upstream's response unchanged: status, version, headers and
/// body.
pub proof fn forward_without_handlers(request: Request, upstream: Response, after: Stage)
    requires
        next_stage(0, requesting(0, 0, request), Event::Answered(Some(upstream)), after),
    ensures
        requesting(0, 0, request) == (Stage::Upstream { request }),
        action_of(requesting(0, 0, request)) == Action::SendUpstream,
        after matches Stage::Delivering { response } && {
            &&& response.status == upstream.status
            &&& response.version == upstream.version
            &&& response.headers == upstream.headers
            &&& response.payload == upstream.payload
            &&& response.request == request
        },
{
}

/// A request that handler `next` replaces is what the following handler
/// sees.
pub proof fn modified_request_reaches_next_handler(
    handlers: usize,
    next: usize,
    request: Request,
    modified: Request,
    after: Stage,
)
    requires
        next + 1 < handlers,
        next_stage(handlers, Stage::Requesting { next, request }, Event::Forwarded(Forward::Modify(modified)), after),
    ensures
        after == (Stage::Requesting { next: (next + 1) as usize, request: modified }),
        action_of(after) == Action::CallOnRequest((next + 1) as usize),
{
}

/// When the first handler answers with `s`, upstream is never contacted
/// and no later request handler runs: the response handlers see `s`, the
/// second one included when the first leaves it alone.
pub proof fn respond_short_circuits(
    handlers: usize,
    request: Request,
    s: Response,
    after: Stage,
    later: Stage,
)
    requires
        handlers >= 2,
        next_stage(handlers, Stage::Requesting { next: 0, request }, Event::Forwarded(Forward::Respond(s)), after),
        next_stage(handlers, after, Event::Reversed(Reverse::DoNothing), later),
    ensures
        after == (Stage::Responding { next: 0, response: s }),
        later == (Stage::Responding { next: 1, response: s }),
        action_of(later) == Action::CallOnResponse(1),
        forall|e: Event, t: Stage| #[trigger] next_stage(handlers, after, e, t) ==> (t is Responding || t is Delivering),
        forall|e: Event, t: Stage| #[trigger] next_stage(handlers, later, e, t) ==> (t is Responding || t is Delivering),
{
}

} // verus!
