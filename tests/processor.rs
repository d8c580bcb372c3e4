use kkowa_proxy::collector::DocumentData;
use kkowa_proxy::processor::SpecRule;
use kkowa_proxy::{Collector, ConfigError, Method, Processor, Request, Response, Selector, Uri};

const DONUTS: &str = r#"[
    {"id": "0001", "type": "donut", "name": "Cake", "ppu": 55},
    {"id": "0002", "type": "donut", "name": "Raised", "ppu": 55},
    {"id": "0003", "type": "donut", "name": "Old Fashioned", "ppu": 55}
]"#;

fn json(text: &str) -> serde_json::Value {
    serde_json::from_str(text).unwrap()
}

fn donuts_rule() -> SpecRule {
    SpecRule::new(
        Some("donut names".to_string()),
        None,
        Method::Get,
        "^/donuts$",
        vec![],
        vec![Selector::new("extracted.donutNames", "$[*].name").unwrap()],
    )
    .unwrap()
}

fn donuts_processor() -> Processor {
    Processor::new("donuts", r"^.*\.domain\.com$", vec![donuts_rule()]).unwrap()
}

fn donuts_response(uri: &str, method: Method) -> Response {
    let req = Request::builder().method(method).uri(Uri::parse(uri).unwrap()).build();
    Response::builder().payload(DONUTS.as_bytes().to_vec()).request(req).build()
}

fn extracted_names() -> serde_json::Value {
    json(r#"{"extracted": {"donutNames": ["Cake", "Raised", "Old Fashioned"]}}"#)
}

#[test]
fn processor_process() {
    let processor = donuts_processor();
    let resp = donuts_response("http://subdomain.domain.com/donuts", Method::Get);

    let document = processor.process(&resp).unwrap();

    assert_eq!(document, extracted_names());
}

#[test]
fn selector_insert() {
    let data = json(DONUTS);
    let mut document = json("{}");
    let selector = Selector::new("extracted.donutNames", "$[*].name").unwrap();
    selector.insert(&data, &mut document);

    assert_eq!(document, extracted_names());
}

#[test]
fn selector_insert_keeps_other_keys() {
    let data = json(r#"{"a": 1}"#);
    let mut document = json(r#"{"kept": true}"#);
    Selector::new("x.y", "$.a").unwrap().insert(&data, &mut document);
    assert_eq!(document, json(r#"{"kept": true, "x": {"y": [1]}}"#));
}

#[test]
fn hostname_miss_gives_nothing() {
    let processor = donuts_processor();
    let resp = donuts_response("http://subdomain.domain-idk.com/donuts", Method::Get);
    assert_eq!(processor.process(&resp), None);
}

#[test]
fn request_without_host_gives_nothing() {
    let processor = donuts_processor();
    let resp = donuts_response("/donuts", Method::Get);
    assert_eq!(processor.process(&resp), None);
}

#[test]
fn method_or_path_miss_gives_empty_object() {
    let processor = donuts_processor();
    let resp = donuts_response("http://subdomain.domain.com/donuts", Method::Post);
    assert_eq!(processor.process(&resp).unwrap(), json("{}"));
    let resp = donuts_response("http://subdomain.domain.com/bagels", Method::Get);
    assert_eq!(processor.process(&resp).unwrap(), json("{}"));
}

#[test]
fn non_json_body_skips_that_side_only() {
    let rule = SpecRule::new(
        None,
        None,
        Method::Post,
        "^/order$",
        vec![Selector::new("req", "$.item").unwrap()],
        vec![Selector::new("resp", "$.status").unwrap()],
    )
    .unwrap();
    let processor = Processor::new("orders", r"^shop\.test$", vec![rule]).unwrap();
    let req = Request::builder()
        .method(Method::Post)
        .uri(Uri::parse("http://shop.test/order").unwrap())
        .payload(b"not json".to_vec())
        .build();
    let resp = Response::builder().payload(br#"{"status": "ok"}"#.to_vec()).request(req).build();
    assert_eq!(processor.process(&resp).unwrap(), json(r#"{"resp": ["ok"]}"#));
}

#[test]
fn adding_non_matching_rule_changes_nothing() {
    let resp = donuts_response("http://subdomain.domain.com/donuts", Method::Get);
    let other = SpecRule::new(
        None,
        None,
        Method::Post,
        "^/donuts$",
        vec![],
        vec![Selector::new("other", "$[0]").unwrap()],
    )
    .unwrap();
    let before = donuts_processor().process(&resp);
    let after = Processor::new("donuts", r"^.*\.domain\.com$", vec![other, donuts_rule()]).unwrap().process(&resp);
    assert_eq!(before, after);
}

#[test]
fn invalid_expressions_are_config_errors() {
    assert!(matches!(Processor::new("bad", "(", vec![]), Err(ConfigError::InvalidRegex { .. })));
    assert!(matches!(
        SpecRule::new(None, None, Method::Get, "[", vec![], vec![]),
        Err(ConfigError::InvalidRegex { .. })
    ));
    assert!(matches!(Selector::new("k", "$[?(").map(|_| ()), Err(ConfigError::InvalidJsonPath { .. })));
    assert!(matches!(Selector::new("k", "$[?(@.a < 1e999)]").map(|_| ()), Err(ConfigError::InvalidJsonPath { .. })));
    assert!(matches!(Selector::new("k", "$[0:2:0]").map(|_| ()), Err(ConfigError::InvalidJsonPath { .. })));
    assert!(matches!(
        Selector::new("a.>18446744073709551615", "$[*]").map(|_| ()),
        Err(ConfigError::InvalidKey { .. })
    ));
}

#[test]
fn collector_process_matching() {
    let collector = Collector::new(None, vec![donuts_processor()]);
    let resp = donuts_response("http://subdomain.domain.com/donuts", Method::Get);
    let document = collector.process(&resp);
    assert_eq!(document.folder, "temp");
    assert_eq!(
        document.data,
        DocumentData::Present(json(r#"[{"extracted": {"donutNames": ["Cake", "Raised", "Old Fashioned"]}}]"#))
    );
}

#[test]
fn collector_process_no_match() {
    let collector = Collector::new(None, vec![donuts_processor()]);
    let resp = donuts_response("http://subdomain.domain-idk.com/donuts", Method::Get);
    let document = collector.process(&resp);
    assert_eq!(document.folder, "temp");
    assert_eq!(document.data, DocumentData::Present(json("[]")));
}

#[test]
fn selector_accessors() {
    let s = Selector::new("extracted.donutNames", "$[*].name").unwrap();
    assert_eq!(s.key(), "extracted.donutNames");
    assert_eq!(s.path(), "$[*].name");
}

#[test]
fn invalid_utf8_body_is_read_lossily() {
    let rule = SpecRule::new(None, None, Method::Get, "^/x$", vec![], vec![Selector::new("v", "$.s").unwrap()]).unwrap();
    let processor = Processor::new("p", "^h$", vec![rule]).unwrap();
    let req = Request::builder().uri(Uri::parse("http://h/x").unwrap()).build();
    let mut body = br#"{"s": "a"#.to_vec();
    body.push(0xff);
    body.extend_from_slice(br#""}"#);
    let resp = Response::builder().payload(body).request(req).build();
    assert_eq!(processor.process(&resp).unwrap(), json("{\"v\": [\"a\u{fffd}\"]}"));
}
