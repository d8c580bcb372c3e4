use kkowa_proxy::auth::{advance, begin, check_scheme, IdentityQuery};
use kkowa_proxy::collector::DocumentData;
use kkowa_proxy::pipeline::{bad_gateway, dispatch, proxy_authentication_required, tunnel_established, tunnel_target};
use kkowa_proxy::{
    Action, AuthOutcome, AuthStep, Collector, Credentials, Delegator, Error, Event, Flow, FlowIds, Forward,
    ForwardPath, Method, Request, Response, Reverse, Route, Stage, StatusCode, Uri,
    PROXY_AUTHORIZATION,
};

fn get(uri: &str) -> Request {
    Request::builder().uri(Uri::parse(uri).unwrap()).build()
}

fn ok_response(body: &[u8]) -> Response {
    Response::builder().payload(body.to_vec()).build()
}

#[test]
fn flow_ids_increase() {
    let mut ids = FlowIds::new();
    let a = Flow::new(&mut ids, std::sync::Arc::new(()), "127.0.0.1:5000").unwrap();
    let b = Flow::new(&mut ids, std::sync::Arc::new(()), "127.0.0.1:5001").unwrap();
    let c = Flow::new(&mut ids, std::sync::Arc::new(()), "127.0.0.1:5002").unwrap();
    assert_eq!(a.id(), 0);
    assert!(a.id() < b.id());
    assert!(b.id() < c.id());
    assert_eq!(b.client(), "127.0.0.1:5001");
    assert_eq!(**a.app(), ());
    assert!(a.auth().is_none());
}

#[test]
fn flow_auth_can_be_set() {
    let mut ids = FlowIds::new();
    let mut flow = Flow::new(&mut ids, std::sync::Arc::new(()), "10.0.0.1:1").unwrap();
    *flow.auth_mut() = Some(Credentials::new("Bearer", "T"));
    assert_eq!(flow.auth(), Some(&Credentials::new("Bearer", "T")));
}

#[test]
fn no_authenticators_admit_requests_without_header() {
    let step = begin(0, &Request::default());
    match step {
        AuthStep::Done(outcome) => {
            assert_eq!(outcome, AuthOutcome::Open);
            assert!(outcome.admits());
        },
        _ => panic!("expected a decision"),
    }
}

#[test]
fn missing_header_with_authenticators() {
    match begin(1, &Request::default()) {
        AuthStep::Done(outcome) => {
            assert_eq!(outcome, AuthOutcome::NoCredentials);
            assert!(!outcome.admits());
        },
        _ => panic!("expected a decision"),
    }
}

#[test]
fn malformed_header_is_rejected() {
    let req = Request::builder().header(PROXY_AUTHORIZATION, b"Scheme Value Extra").build();
    match begin(2, &req) {
        AuthStep::Done(outcome) => assert_eq!(outcome, AuthOutcome::Rejected(Error::InvalidFormat { n: 3 })),
        _ => panic!("expected a decision"),
    }
}

#[test]
fn first_success_wins_and_first_error_is_kept() {
    let req = Request::builder().header(PROXY_AUTHORIZATION, b"Bearer TOKEN").build();
    let (index, credentials, first_error) = match begin(3, &req) {
        AuthStep::Ask { index, credentials, first_error } => (index, credentials, first_error),
        _ => panic!("expected a question"),
    };
    assert_eq!(index, 0);
    assert_eq!(credentials, Credentials::new("Bearer", "TOKEN"));
    let step = advance(3, index, credentials.clone(), first_error, Err(Error::NotAuthenticated));
    let (index, credentials2, first_error) = match step {
        AuthStep::Ask { index, credentials, first_error } => (index, credentials, first_error),
        _ => panic!("expected a question"),
    };
    assert_eq!(index, 1);
    assert_eq!(first_error, Some(Error::NotAuthenticated));
    match advance(3, index, credentials2.clone(), first_error.clone(), Ok(())) {
        AuthStep::Done(outcome) => assert_eq!(outcome, AuthOutcome::Authorized(credentials)),
        _ => panic!("expected a decision"),
    }
    match advance(3, 2, credentials2, first_error, Err(Error::Unknown)) {
        AuthStep::Done(outcome) => assert_eq!(outcome, AuthOutcome::Rejected(Error::NotAuthenticated)),
        _ => panic!("expected a decision"),
    }
}

#[test]
fn delegator_queries_identity_endpoint() {
    let delegator = Delegator::new(Some(Uri::parse("http://auth.test/").unwrap()));
    let query = delegator.identity_query(&Credentials::new("Bearer", "TOKEN")).unwrap();
    assert_eq!(
        query,
        IdentityQuery { url: "http://auth.test/api/users/me".to_string(), token: "TOKEN".to_string() }
    );
    let query = delegator.identity_query(&Credentials::new("bEaReR", "T2")).unwrap();
    assert_eq!(query.token, "T2");
}

#[test]
fn delegator_invalid_scheme_is_refused() {
    let delegator = Delegator::new(Some(Uri::parse("http://auth.test").unwrap()));
    let err = delegator.identity_query(&Credentials::new("Basic", "dXNlcm5hbWU6cGFzc3dvcmQ=")).err().unwrap();
    assert_eq!(err, Error::InvalidScheme { got: "Basic".to_string(), expect: "bearer".to_string() });
}

#[test]
fn delegator_without_endpoint_refuses() {
    let delegator = Delegator::new(None);
    assert_eq!(
        delegator.identity_query(&Credentials::new("Bearer", "TOKEN")).err().unwrap(),
        Error::NotAuthenticated
    );
}

#[test]
fn delegator_concludes_from_status() {
    assert_eq!(Delegator::conclude(StatusCode::from_u16(200)), Ok(()));
    assert_eq!(Delegator::conclude(StatusCode::from_u16(401)), Err(Error::NotAuthenticated));
    assert_eq!(Delegator::conclude(StatusCode::from_u16(500)), Err(Error::NotAuthenticated));
    assert_eq!(Delegator::conclude(None), Err(Error::NotAuthenticated));
}

#[test]
fn scheme_check_uses_lowered_form() {
    assert_eq!(check_scheme("bearer", "Bearer"), Ok(()));
    assert_eq!(
        check_scheme("basic", "Basic"),
        Err(Error::InvalidScheme { got: "Basic".to_string(), expect: "bearer".to_string() })
    );
}

#[test]
fn connect_is_tunneled() {
    let req = Request::builder().method(Method::Connect).uri(Uri::parse("host:443").unwrap()).build();
    assert_eq!(dispatch(&req), Route::Tunnel);
    assert_eq!(tunnel_target(&req), Some("host:443".to_string()));
    let reply = tunnel_established(req.clone());
    assert_eq!(reply.status.as_u16(), 200);
    assert!(reply.payload.is_empty());
    assert_eq!(bad_gateway(req).status.as_u16(), 502);
}

#[test]
fn other_methods_are_forwarded() {
    for method in [Method::Get, Method::Post, Method::Put, Method::Delete, Method::Patch, Method::Head, Method::Options, Method::Trace] {
        let req = Request::builder().method(method).build();
        assert_eq!(dispatch(&req), Route::Forward);
    }
}

#[test]
fn rejected_requests_get_407() {
    assert_eq!(proxy_authentication_required(Request::default()).status.as_u16(), 407);
}

#[test]
fn forward_path_without_handlers() {
    let req = get("http://example.test/x");
    let path = ForwardPath::start(0, req.clone());
    assert_eq!(path.action(), Action::SendUpstream);
    assert_eq!(path.request(), Some(&req));
    let upstream = Response::builder().header("x-up", b"1").payload(b"ok".to_vec()).build();
    let path = path.step(Event::Answered(Some(upstream.clone())));
    assert_eq!(path.action(), Action::Deliver);
    let delivered = path.into_response().unwrap();
    assert_eq!(delivered.status.as_u16(), 200);
    assert_eq!(delivered.payload, b"ok".to_vec());
    assert_eq!(delivered.headers, upstream.headers);
    assert_eq!(delivered.request, req);
}

#[test]
fn upstream_failure_gives_bad_gateway() {
    let req = get("http://example.test/x");
    let path = ForwardPath::start(1, req.clone());
    let path = path.step(Event::Forwarded(Forward::DoNothing));
    assert_eq!(path.action(), Action::SendUpstream);
    let path = path.step(Event::Answered(None));
    assert_eq!(path.action(), Action::CallOnResponse(0));
    assert_eq!(path.response().unwrap().status.as_u16(), 502);
    let path = path.step(Event::Reversed(Reverse::DoNothing));
    let delivered = path.into_response().unwrap();
    assert_eq!(delivered.status.as_u16(), 502);
    assert_eq!(delivered.request, req);
}

#[test]
fn modified_request_is_seen_by_next_handler() {
    let path = ForwardPath::start(2, get("http://example.test/a"));
    assert_eq!(path.action(), Action::CallOnRequest(0));
    let modified = get("http://example.test/b");
    let path = path.step(Event::Forwarded(Forward::Modify(modified.clone())));
    assert_eq!(path.action(), Action::CallOnRequest(1));
    assert_eq!(path.request(), Some(&modified));
    let path = path.step(Event::Forwarded(Forward::DoNothing));
    assert_eq!(path.action(), Action::SendUpstream);
    assert_eq!(path.request(), Some(&modified));
}

#[test]
fn respond_short_circuits_upstream() {
    let path = ForwardPath::start(2, get("http://example.test/a"));
    let synthetic = ok_response(b"cached");
    let path = path.step(Event::Forwarded(Forward::Respond(synthetic.clone())));
    assert_eq!(path.action(), Action::CallOnResponse(0));
    let path = path.step(Event::Reversed(Reverse::DoNothing));
    assert_eq!(path.action(), Action::CallOnResponse(1));
    assert_eq!(path.response(), Some(&synthetic));
    assert!(matches!(path.stage, Stage::Responding { next: 1, .. }));
    let replaced = ok_response(b"changed");
    let path = path.step(Event::Reversed(Reverse::Modify(replaced.clone())));
    assert_eq!(path.action(), Action::Deliver);
    assert_eq!(path.into_response(), Some(replaced));
}

#[test]
fn mismatched_event_is_not_accepted() {
    let path = ForwardPath::start(1, Request::default());
    assert!(!path.accepts(&Event::Answered(None)));
    assert!(path.accepts(&Event::Forwarded(Forward::DoNothing)));
}

#[test]
fn collector_uploads_only_for_authenticated_flows() {
    let collector = Collector::new(Some(Uri::parse("http://server.test/").unwrap()), vec![]);
    let mut ids = FlowIds::new();
    let mut flow = Flow::new(&mut ids, std::sync::Arc::new(()), "1.2.3.4:5").unwrap();
    let resp = Response::default();
    let (reverse, upload) = collector.on_response(&flow, &resp);
    assert!(matches!(reverse, Reverse::DoNothing));
    assert!(upload.is_none());

    *flow.auth_mut() = Some(Credentials::new("Bearer", "TOKEN"));
    let (_, upload) = collector.on_response(&flow, &resp);
    let upload = upload.unwrap();
    assert_eq!(upload.url, "http://server.test/api/documents");
    assert_eq!(upload.token, "TOKEN");
    assert_eq!(upload.documents.len(), 1);
    assert_eq!(upload.documents[0].folder, "temp");
    assert_eq!(upload.documents[0].data, DocumentData::Present(serde_json::Value::Array(vec![])));

    let unconfigured = Collector::new(None, vec![]);
    assert!(unconfigured.on_response(&flow, &resp).1.is_none());
}

#[test]
fn reporter_skips_processors_whose_host_misses() {
    let processor = kkowa_proxy::Processor::new("any", "^never$", vec![]).unwrap();
    let reporter = kkowa_proxy::Reporter::new(Some(Uri::parse("http://server.test").unwrap()), vec![processor]);
    let resp = Response::builder().request(get("http://example.test/x")).build();
    let document = reporter.process(&resp);
    assert_eq!(document.folder, "temp");
    assert_eq!(document.data, DocumentData::Present(serde_json::from_str("[]").unwrap()));

    let mut ids = FlowIds::new();
    let mut flow = Flow::new(&mut ids, std::sync::Arc::new(()), "1.2.3.4:5").unwrap();
    assert!(reporter.on_response(&flow, &resp).1.is_none());
    *flow.auth_mut() = Some(Credentials::new("Bearer", "TOKEN"));
    let upload = reporter.on_response(&flow, &resp).1.unwrap();
    assert_eq!(upload.url, "http://server.test/api/documents");
    assert_eq!(upload.documents[0].data, DocumentData::Present(serde_json::from_str("[]").unwrap()));
}

#[test]
fn server_auth_is_the_delegator() {
    let auth: kkowa_proxy::ServerAuth = Delegator::new(None);
    assert_eq!(auth.identity_query(&Credentials::new("Bearer", "T")).err().unwrap(), Error::NotAuthenticated);
}

#[test]
fn begin_carries_the_parsed_credentials() {
    let req = Request::builder().header(PROXY_AUTHORIZATION, b"Basic  abc=").build();
    match begin(1, &req) {
        AuthStep::Ask { credentials, .. } => {
            assert_eq!(credentials.scheme(), "Basic");
            assert_eq!(credentials.credentials(), "abc=");
        },
        _ => panic!("expected a question"),
    }
}

#[test]
fn hop_by_hop_headers_are_stripped() {
    let mut req = Request::builder()
        .header("connection", b"keep-alive")
        .header("proxy-connection", b"keep-alive")
        .header("te", b"trailers")
        .header("trailer", b"x")
        .header("transfer-encoding", b"chunked")
        .header("upgrade", b"h2c")
        .header("accept", b"*/*")
        .build();
    kkowa_proxy::headers::strip_hop_by_hop(&mut req.headers);
    assert_eq!(req.headers.len(), 1);
    assert_eq!(req.headers.get("accept").unwrap().as_bytes(), b"*/*");
}

#[test]
fn header_counts_allow_extending() {
    let a = Request::builder().header("a", b"1").header("b", b"2").build();
    let b = Request::builder().header("b", b"3").build();
    assert_eq!(kkowa_proxy::headers::name_count(&a.headers), 2);
    assert!(kkowa_proxy::headers::fits_together(&a.headers, &b.headers));
}
