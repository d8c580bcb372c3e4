//! Owned request snapshots and their builder.

use vstd::prelude::*;

use crate::headers::{
    empty_headers, fit_together, has_room, header_extend, header_insert, header_table, is_header_name,
    is_header_value, no_headers, Headers,
};
use crate::uri::Uri;

verus! {

/// Request methods the proxy speaks.
#[derive(Clone, Copy, Debug, PartialEq, Eq, Structural)]
pub enum Method {
    Get,
    Post,
    Put,
    Delete,
    Patch,
    Head,
    Options,
    Trace,
    Connect,
}

impl Default for Method {
    fn default() -> (r: Method)
        ensures
            r == Method::Get,
    {
        Method::Get
    }
}

/// Protocol versions.
#[derive(Clone, Copy, Debug, PartialEq, Eq, Structural)]
pub enum Version {
    Http09,
    Http10,
    Http11,
    Http2,
    Http3,
}

impl Default for Version {
    fn default() -> (r: Version)
        ensures
            r == Version::Http11,
    {
        Version::Http11
    }
}

/// A request, with its body fully read.
#[derive(Clone, Debug, PartialEq, Eq)]
pub struct Request {
    pub method: Method,
    pub uri: Uri,
    pub version: Version,
    pub headers: Headers,
    pub payload: Vec<u8>,
}

/// `GET /` over HTTP/1.1, with no header and an empty body.
pub open spec fn is_default_request(r: Request) -> bool {
    &&& r.method == Method::Get
    &&& r.uri.text@ == seq!['/']
    &&& r.uri.authority is None
    &&& r.uri.host is None
    &&& r.uri.path@ == seq!['/']
    &&& r.version == Version::Http11
    &&& header_table(r.headers) == no_headers()
    &&& r.payload@.len() == 0
}

impl Request {
    pub fn new(method: Method, uri: Uri, version: Version, headers: Headers, payload: Vec<u8>) -> (r: Request)
        ensures
            r.method == method,
            r.uri == uri,
            r.version == version,
            r.headers == headers,
            r.payload == payload,
    {
        Request { method, uri, version, headers, payload }
    }

    pub fn builder() -> (r: Builder)
        ensures
            is_default_request(r.request),
    {
        Builder::new()
    }
}

impl Default for Request {
    fn default() -> (r: Request)
        ensures
            is_default_request(r),
    {
        Request {
            method: Method::Get,
            uri: Uri::default(),
            version: Version::Http11,
            headers: empty_headers(),
            payload: Vec::new(),
        }
    }
}

/// Fluent construction of a `Request`.
#[derive(Clone, Debug)]
pub struct Builder {
    pub request: Request,
}

impl Builder {
    pub fn new() -> (r: Builder)
        ensures
            is_default_request(r.request),
    {
        Builder { request: Request::default() }
    }

    pub fn method(self, method: Method) -> (r: Builder)
        ensures
            r.request == (Request { method, ..self.request }),
    {
        let mut b = self;
        b.request.method = method;
        b
    }

    pub fn uri(self, uri: Uri) -> (r: Builder)
        ensures
            r.request == (Request { uri, ..self.request }),
    {
        let mut b = self;
        b.request.uri = uri;
        b
    }

    pub fn version(self, version: Version) -> (r: Builder)
        ensures
            r.request == (Request { version, ..self.request }),
    {
        let mut b = self;
        b.request.version = version;
        b
    }

    /// Sets `name` to the single value `value`, dropping earlier values.
    pub fn header(self, name: &str, value: &[u8]) -> (r: Builder)
        requires
            is_header_name(name@),
            is_header_value(value@),
            has_room(header_table(self.request.headers), 1),
        ensures
            header_table(r.request.headers) == header_table(self.request.headers).insert(name@, seq![value@]),
            r.request.method == self.request.method,
            r.request.uri == self.request.uri,
            r.request.version == self.request.version,
            r.request.payload == self.request.payload,
    {
        let mut b = self;
        header_insert(&mut b.request.headers, name, value);
        b
    }

    /// Adds every header of `headers`, each replacing what was set under its name.
    pub fn headers(self, headers: Headers) -> (r: Builder)
        requires
            fit_together(header_table(self.request.headers), header_table(headers)),
        ensures
            header_table(r.request.headers) == header_table(self.request.headers).union_prefer_right(header_table(headers)),
            r.request.method == self.request.method,
            r.request.uri == self.request.uri,
            r.request.version == self.request.version,
            r.request.payload == self.request.payload,
    {
        let mut b = self;
        header_extend(&mut b.request.headers, headers);
        b
    }

    pub fn payload(self, payload: Vec<u8>) -> (r: Builder)
        ensures
            r.request == (Request { payload, ..self.request }),
    {
        let mut b = self;
        b.request.payload = payload;
        b
    }

    pub fn build(self) -> (r: Request)
        ensures
            r == self.request,
    {
        self.request
    }
}

} // verus!
