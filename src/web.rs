//! The internal server for health checks and metrics: its routes and the
//! responses it gives.

use vstd::prelude::*;

use crate::headers::{empty_headers, header_insert, header_table, is_header_name, no_headers};
use crate::request::{Method, Request, Version};
use crate::response::{Response, StatusCode};
use crate::text::same_text;

verus! {

/// The internal server.
#[derive(Clone, Debug, Default)]
pub struct Web {}

impl Web {
    pub fn new() -> (r: Web) {
        Web {}
    }
}

/// What the internal server does with a request.
#[derive(Clone, Copy, Debug, PartialEq, Eq, Structural)]
pub enum WebRoute {
    Health,
    Metrics,
    NotFound,
}

pub open spec fn ht_path() -> Seq<char> {
    seq!['/', 'h', 't']
}

pub open spec fn healthz_path() -> Seq<char> {
    seq!['/', 'h', 'e', 'a', 'l', 't', 'h', 'z']
}

pub open spec fn metrics_path() -> Seq<char> {
    seq!['/', 'm', 'e', 't', 'r', 'i', 'c', 's']
}

/// `GET /ht` and `GET /healthz` are health checks, `GET /metrics` serves
/// metrics, and everything else is not found. `method` is `None` for a
/// method the proxy does not know.
pub fn route(method: Option<Method>, target: &str) -> (r: WebRoute)
    ensures
        r == (if method == Some(Method::Get) && (target@ == ht_path() || target@ == healthz_path()) {
            WebRoute::Health
        } else if method == Some(Method::Get) && target@ == metrics_path() {
            WebRoute::Metrics
        } else {
            WebRoute::NotFound
        }),
{
    let ht = "/ht";
    let healthz = "/healthz";
    let metrics = "/metrics";
    proof {
        reveal_strlit("/ht");
        reveal_strlit("/healthz");
        reveal_strlit("/metrics");
        assert(ht@ =~= ht_path());
        assert(healthz@ =~= healthz_path());
        assert(metrics@ =~= metrics_path());
    }
    match method {
        Some(Method::Get) => {
            if same_text(target, ht) || same_text(target, healthz) {
                WebRoute::Health
            } else if same_text(target, metrics) {
                WebRoute::Metrics
            } else {
                WebRoute::NotFound
            }
        },
        _ => WebRoute::NotFound,
    }
}

pub open spec fn content_type_name() -> Seq<char> {
    seq!['c', 'o', 'n', 't', 'e', 'n', 't', '-', 't', 'y', 'p', 'e']
}

pub open spec fn text_plain() -> Seq<u8> {
    seq![116u8, 101u8, 120u8, 116u8, 47u8, 112u8, 108u8, 97u8, 105u8, 110u8]
}

/// A `text/plain` response with this status and body.
pub open spec fn is_text_response(r: Response, status: u16, body: Seq<u8>) -> bool {
    &&& r.status.code == status
    &&& r.version == Version::Http11
    &&& header_table(r.headers) == no_headers().insert(content_type_name(), seq![text_plain()])
    &&& r.payload@ == body
}

fn text_response(status: StatusCode, body: Vec<u8>) -> (r: Response)
    ensures
        is_text_response(r, status.code, body@),
{
    let name = "content-type";
    let value: Vec<u8> = vec![116u8, 101u8, 120u8, 116u8, 47u8, 112u8, 108u8, 97u8, 105u8, 110u8];
    proof {
        reveal_strlit("content-type");
        assert(name@ =~= content_type_name());
        assert(value@ =~= text_plain());
        assert(is_header_name(name@));
    }
    let mut headers = empty_headers();
    header_insert(&mut headers, name, value.as_slice());
    Response { status, version: Version::Http11, headers, payload: body, request: Request::default() }
}

/// `200`, `text/plain`, body `OK`.
pub fn healthz() -> (r: Response)
    ensures
        is_text_response(r, 200, seq![79u8, 75u8]),
{
    let body: Vec<u8> = vec![79u8, 75u8];
    text_response(StatusCode::ok(), body)
}

/// `404`, body `Not found`.
pub fn not_found() -> (r: Response)
    ensures
        r.status.code == 404,
        r.payload@ == seq![78u8, 111u8, 116u8, 32u8, 102u8, 111u8, 117u8, 110u8, 100u8],
{
    let body: Vec<u8> = vec![78u8, 111u8, 116u8, 32u8, 102u8, 111u8, 117u8, 110u8, 100u8];
    Response { status: StatusCode { code: 404 }, version: Version::Http11, headers: empty_headers(), payload: body, request: Request::default() }
}

/// The metrics page: the text a metrics recorder rendered, as `text/plain`,
/// or `501` with an empty body where no recorder is installed.
pub fn metrics(rendered: Option<Vec<u8>>) -> (r: Response)
    ensures
        match rendered {
            Some(text) => is_text_response(r, 200, text@),
            None => r.status.code == 501 && r.payload@.len() == 0 && header_table(r.headers) == no_headers(),
        },
{
    match rendered {
        Some(text) => text_response(StatusCode::ok(), text),
        None => Response {
            status: StatusCode { code: 501 },
            version: Version::Http11,
            headers: empty_headers(),
            payload: Vec::new(),
            request: Request::default(),
        },
    }
}

} // verus!
