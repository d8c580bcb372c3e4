//! Owned response snapshots and their builder.

use vstd::prelude::*;

use crate::headers::{
    empty_headers, fit_together, has_room, header_extend, header_insert, header_table, is_header_name,
    is_header_value, no_headers, Headers,
};
use crate::request::{is_default_request, Request, Version};

verus! {

/// A response status, a three-digit code.
#[derive(Clone, Copy, Debug, PartialEq, Eq, Structural)]
pub struct StatusCode {
    pub code: u16,
}

impl StatusCode {
    /// The codes `http` accepts: 100 to 999.
    pub open spec fn valid(code: u16) -> bool {
        100 <= code <= 999
    }

    pub fn from_u16(code: u16) -> (r: Option<StatusCode>)
        ensures
            r == (if StatusCode::valid(code) { Some(StatusCode { code }) } else { None }),
    {
        if 100 <= code && code <= 999 {
            Some(StatusCode { code })
        } else {
            None
        }
    }

    pub fn as_u16(&self) -> (r: u16)
        ensures
            r == self.code,
    {
        self.code
    }

    pub fn ok() -> (r: StatusCode)
        ensures
            r.code == 200,
    {
        StatusCode { code: 200 }
    }

    pub fn proxy_authentication_required() -> (r: StatusCode)
        ensures
            r.code == 407,
    {
        StatusCode { code: 407 }
    }

    pub fn bad_gateway() -> (r: StatusCode)
        ensures
            r.code == 502,
    {
        StatusCode { code: 502 }
    }

    /// Whether the code is a success (2xx).
    pub fn is_success(&self) -> (r: bool)
        ensures
            r == (200 <= self.code < 300),
    {
        200 <= self.code && self.code < 300
    }
}

impl Default for StatusCode {
    fn default() -> (r: StatusCode)
        ensures
            r.code == 200,
    {
        StatusCode::ok()
    }
}

/// A response, with its body fully read and the request that produced it.
#[derive(Clone, Debug, PartialEq, Eq)]
pub struct Response {
    pub status: StatusCode,
    pub version: Version,
    pub headers: Headers,
    pub payload: Vec<u8>,
    /// The request that was forwarded to obtain this response.
    pub request: Request,
}

/// `200` over HTTP/1.1, with no header, an empty body and the default request.
pub open spec fn is_default_response(r: Response) -> bool {
    &&& r.status.code == 200
    &&& r.version == Version::Http11
    &&& header_table(r.headers) == no_headers()
    &&& r.payload@.len() == 0
    &&& is_default_request(r.request)
}

impl Response {
    pub fn new(status: StatusCode, version: Version, headers: Headers, payload: Vec<u8>, request: Request) -> (r: Response)
        ensures
            r.status == status,
            r.version == version,
            r.headers == headers,
            r.payload == payload,
            r.request == request,
    {
        Response { status, version, headers, payload, request }
    }

    pub fn builder() -> (r: Builder)
        ensures
            is_default_response(r.response),
    {
        Builder::new()
    }
}

impl Default for Response {
    fn default() -> (r: Response)
        ensures
            is_default_response(r),
    {
        Response {
            status: StatusCode::ok(),
            version: Version::Http11,
            headers: empty_headers(),
            payload: Vec::new(),
            request: Request::default(),
        }
    }
}

/// Fluent construction of a `Response`.
#[derive(Clone, Debug)]
pub struct Builder {
    pub response: Response,
}

impl Builder {
    pub fn new() -> (r: Builder)
        ensures
            is_default_response(r.response),
    {
        Builder { response: Response::default() }
    }

    pub fn status(self, status: StatusCode) -> (r: Builder)
        ensures
            r.response == (Response { status, ..self.response }),
    {
        let mut b = self;
        b.response.status = status;
        b
    }

    pub fn version(self, version: Version) -> (r: Builder)
        ensures
            r.response == (Response { version, ..self.response }),
    {
        let mut b = self;
        b.response.version = version;
        b
    }

    /// Sets `name` to the single value `value`, dropping earlier values.
    pub fn header(self, name: &str, value: &[u8]) -> (r: Builder)
        requires
            is_header_name(name@),
            is_header_value(value@),
            has_room(header_table(self.response.headers), 1),
        ensures
            header_table(r.response.headers) == header_table(self.response.headers).insert(name@, seq![value@]),
            r.response.status == self.response.status,
            r.response.version == self.response.version,
            r.response.payload == self.response.payload,
            r.response.request == self.response.request,
    {
        let mut b = self;
        header_insert(&mut b.response.headers, name, value);
        b
    }

    /// Adds every header of `headers`, each replacing what was set under its name.
    pub fn headers(self, headers: Headers) -> (r: Builder)
        requires
            fit_together(header_table(self.response.headers), header_table(headers)),
        ensures
            header_table(r.response.headers) == header_table(self.response.headers).union_prefer_right(header_table(headers)),
            r.response.status == self.response.status,
            r.response.version == self.response.version,
            r.response.payload == self.response.payload,
            r.response.request == self.response.request,
    {
        let mut b = self;
        header_extend(&mut b.response.headers, headers);
        b
    }

    pub fn payload(self, payload: Vec<u8>) -> (r: Builder)
        ensures
            r.response == (Response { payload, ..self.response }),
    {
        let mut b = self;
        b.response.payload = payload;
        b
    }

    pub fn request(self, request: Request) -> (r: Builder)
        ensures
            r.response == (Response { request, ..self.response }),
    {
        let mut b = self;
        b.response.request = request;
        b
    }

    pub fn build(self) -> (r: Response)
        ensures
            r == self.response,
    {
        self.response
    }
}

} // verus!
