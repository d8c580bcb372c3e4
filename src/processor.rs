//! Extractor definitions: a hostname-scoped list of rules, each lifting
//! values out of JSON request and response bodies into one document.

use vstd::prelude::*;

use crate::json::{
    avoids_chars, empty_object, is_plain_key, is_plain_path, json_dot_set, jsonpath_accepts, body_json, json_select, lossy_utf8, new_empty_object, parse_json, dot_set,
    JsonPath,
};
use crate::pattern::{regex_accepts, regex_finds, Pattern};
use crate::request::{Method, Request};
use crate::response::Response;
use crate::uri::opt_chars;

verus! {

/// Why a processor definition could not be loaded.
#[derive(Clone, Debug, PartialEq, Eq)]
pub enum ConfigError {
    /// A hostname or path expression does not compile.
    InvalidRegex { pattern: String, reason: String },
    /// A selector's JSONPath expression does not compile, or uses a filter
    /// or a slice.
    InvalidJsonPath { path: String, reason: String },
    /// A selector's dotted key holds `>` or is longer than 1024 characters.
    InvalidKey { key: String },
}

/// Lifts the values a JSONPath expression selects into the document, at a
/// dotted key.
#[derive(Debug)]
pub struct Selector {
    key: String,
    value: JsonPath,
}

/// Selectors applied to the request body.
#[derive(Debug)]
pub struct SpecRuleRequest {
    pub selectors: Vec<Selector>,
}

/// Selectors applied to the response body.
#[derive(Debug)]
pub struct SpecRuleResponse {
    pub selectors: Vec<Selector>,
}

/// One extraction rule: it applies to requests of its method whose path its
/// expression matches.
#[derive(Debug)]
pub struct SpecRule {
    pub name: Option<String>,
    pub description: Option<String>,
    pub method: Method,
    pub path: Pattern,
    pub request: SpecRuleRequest,
    pub response: SpecRuleResponse,
}

#[derive(Debug)]
pub struct ProcessorMetadata {
    pub name: String,
    /// Hosts the processor applies to.
    pub hostname: Pattern,
}

#[derive(Debug)]
pub struct ProcessorSpec {
    pub rules: Vec<SpecRule>,
}

/// A named, hostname-scoped collection of extraction rules.
#[derive(Debug)]
pub struct Processor {
    pub metadata: ProcessorMetadata,
    pub spec: ProcessorSpec,
}

/// `acc` after one selector has read `doc`: a failed selection, or a key
/// that cannot be set, leaves it as it was.
pub open spec fn apply_selector(sel: Selector, doc: serde_json::Value, acc: serde_json::Value) -> serde_json::Value {
    match json_select(sel.path_view(), doc) {
        Some(found) => match json_dot_set(acc, sel.key_view(), found) {
            Some(next) => next,
            None => acc,
        },
        None => acc,
    }
}

/// `acc` after the selectors, in order, have read `doc`.
pub open spec fn apply_selectors(sels: Seq<Selector>, doc: serde_json::Value, acc: serde_json::Value) -> serde_json::Value
    decreases sels.len(),
{
    if sels.len() == 0 {
        acc
    } else {
        apply_selector(sels.last(), doc, apply_selectors(sels.drop_last(), doc, acc))
    }
}

/// The selectors of one side, applied where that side's body is JSON.
pub open spec fn apply_side(sels: Seq<Selector>, doc: Option<serde_json::Value>, acc: serde_json::Value) -> serde_json::Value {
    match doc {
        Some(d) => apply_selectors(sels, d, acc),
        None => acc,
    }
}

/// Whether a rule applies to a request: same method, and its path
/// expression matches the request path.
pub open spec fn rule_applies(rule: SpecRule, req: Request) -> bool {
    rule.method == req.method && regex_finds(rule.path.source_view(), req.uri.path@)
}

/// `acc` after one rule: its request selectors, then its response selectors.
pub open spec fn apply_rule(
    rule: SpecRule,
    req: Request,
    req_doc: Option<serde_json::Value>,
    resp_doc: Option<serde_json::Value>,
    acc: serde_json::Value,
) -> serde_json::Value {
    if rule_applies(rule, req) {
        apply_side(rule.response.selectors@, resp_doc, apply_side(rule.request.selectors@, req_doc, acc))
    } else {
        acc
    }
}

/// `acc` after the rules, in order.
pub open spec fn apply_rules(
    rules: Seq<SpecRule>,
    req: Request,
    req_doc: Option<serde_json::Value>,
    resp_doc: Option<serde_json::Value>,
    acc: serde_json::Value,
) -> serde_json::Value
    decreases rules.len(),
{
    if rules.len() == 0 {
        acc
    } else {
        apply_rule(rules.last(), req, req_doc, resp_doc, apply_rules(rules.drop_last(), req, req_doc, resp_doc, acc))
    }
}

/// Whether the processor's hostname expression matches the host of the
/// request that produced `resp`; a request without a host matches nothing.
pub open spec fn host_matches(hostname: Pattern, resp: Response) -> bool {
    match opt_chars(resp.request.uri.host) {
        Some(h) => regex_finds(hostname.source_view(), h),
        None => false,
    }
}

/// What a processor extracts from a response: nothing where the host does
/// not match, else the empty object after every rule.
pub open spec fn extraction(rules: Seq<SpecRule>, hostname: Pattern, resp: Response) -> Option<serde_json::Value> {
    if host_matches(hostname, resp) {
        Some(apply_rules(rules, resp.request, body_json(resp.request.payload@), body_json(resp.payload@), empty_object()))
    } else {
        None
    }
}

impl Selector {
    pub closed spec fn key_view(&self) -> Seq<char> {
        self.key@
    }

    pub closed spec fn path_view(&self) -> Seq<char> {
        self.value.source_view()
    }

    #[verifier::type_invariant]
    closed spec fn plain(&self) -> bool {
        is_plain_key(self.key@)
    }

    /// Checks the key and compiles the JSONPath expression of a selector.
    pub fn new(key: &str, value: &str) -> (r: Result<Selector, ConfigError>)
        ensures
            r is Ok <==> is_plain_key(key@) && is_plain_path(value@) && jsonpath_accepts(value@),
            match r {
                Ok(s) => s.key_view() == key@ && s.path_view() == value@,
                Err(e) => if is_plain_key(key@) {
                    e is InvalidJsonPath
                } else {
                    e is InvalidKey
                },
            },
    {
        if !avoids_chars(key, 1024, '>', '>') {
            return Err(ConfigError::InvalidKey { key: key.to_string() });
        }
        if !avoids_chars(value, 1024, '?', ':') {
            return Err(
                ConfigError::InvalidJsonPath {
                    path: value.to_string(),
                    reason: "filters and slices are not supported".to_string(),
                },
            );
        }
        match JsonPath::compile(value) {
            Ok(path) => Ok(Selector { key: key.to_string(), value: path }),
            Err(reason) => Err(ConfigError::InvalidJsonPath { path: value.to_string(), reason }),
        }
    }

    pub fn key(&self) -> (r: &str)
        ensures
            r@ == self.key_view(),
    {
        self.key.as_str()
    }

    pub fn path(&self) -> (r: &str)
        ensures
            r@ == self.path_view(),
    {
        self.value.as_str()
    }

    /// Stores what the expression selects in `select_from` at the key, in
    /// `insert_to`.
    pub fn insert(&self, select_from: &serde_json::Value, insert_to: &mut serde_json::Value)
        ensures
            *final(insert_to) == apply_selector(*self, *select_from, *old(insert_to)),
    {
        proof {
            use_type_invariant(self);
            use_type_invariant(&self.value);
        }
        match self.value.select(select_from) {
            Some(found) => {
                let _ = dot_set(insert_to, self.key.as_str(), found);
            },
            None => {},
        }
    }
}

/// Applies the selectors, in order, to `doc`.
fn insert_all(sels: &Vec<Selector>, doc: &serde_json::Value, acc: &mut serde_json::Value)
    ensures
        *final(acc) == apply_selectors(sels@, *doc, *old(acc)),
{
    let mut j: usize = 0;
    while j < sels.len()
        invariant
            j <= sels@.len(),
            *acc == apply_selectors(sels@.subrange(0, j as int), *doc, *old(acc)),
        decreases sels@.len() - j,
    {
        proof {
            assert(sels@.subrange(0, j + 1).drop_last() =~= sels@.subrange(0, j as int));
        }
        sels[j].insert(doc, acc);
        j = j + 1;
    }
    proof {
        assert(sels@.subrange(0, sels@.len() as int) =~= sels@);
    }
}

/// Reads a body as JSON at its first use only.
fn load_body_json(cache: &mut Option<Option<serde_json::Value>>, body: &Vec<u8>)
    requires
        (*old(cache)) is Some ==> (*old(cache))->Some_0 == body_json(body@),
    ensures
        *final(cache) == Some(body_json(body@)),
{
    if cache.is_none() {
        let text = lossy_utf8(body.as_slice());
        *cache = Some(parse_json(text.as_str()));
    }
}

impl SpecRule {
    /// Compiles the path expression of a rule.
    pub fn new(
        name: Option<String>,
        description: Option<String>,
        method: Method,
        path: &str,
        request_selectors: Vec<Selector>,
        response_selectors: Vec<Selector>,
    ) -> (r: Result<SpecRule, ConfigError>)
        ensures
            r is Ok <==> regex_accepts(path@),
            match r {
                Ok(rule) => {
                    &&& rule.method == method
                    &&& rule.path.source_view() == path@
                    &&& rule.request.selectors == request_selectors
                    &&& rule.response.selectors == response_selectors
                },
                Err(e) => e is InvalidRegex,
            },
    {
        match Pattern::new(path) {
            Ok(p) => Ok(
                SpecRule {
                    name,
                    description,
                    method,
                    path: p,
                    request: SpecRuleRequest { selectors: request_selectors },
                    response: SpecRuleResponse { selectors: response_selectors },
                },
            ),
            Err(reason) => Err(ConfigError::InvalidRegex { pattern: path.to_string(), reason }),
        }
    }
}

impl Processor {
    /// Compiles the hostname expression of a processor.
    pub fn new(name: &str, hostname: &str, rules: Vec<SpecRule>) -> (r: Result<Processor, ConfigError>)
        ensures
            r is Ok <==> regex_accepts(hostname@),
            match r {
                Ok(p) => {
                    &&& p.metadata.name@ == name@
                    &&& p.metadata.hostname.source_view() == hostname@
                    &&& p.spec.rules == rules
                },
                Err(e) => e is InvalidRegex,
            },
    {
        match Pattern::new(hostname) {
            Ok(h) => Ok(
                Processor {
                    metadata: ProcessorMetadata { name: name.to_string(), hostname: h },
                    spec: ProcessorSpec { rules },
                },
            ),
            Err(reason) => Err(ConfigError::InvalidRegex { pattern: hostname.to_string(), reason }),
        }
    }

    /// Runs the processor's rules on a response and the request behind it.
    /// Each body is read as JSON at most once, and only where a rule that
    /// applies has selectors for it; a body that is not JSON skips that
    /// side's selectors.
    pub fn process(&self, resp: &Response) -> (r: Option<serde_json::Value>)
        ensures
            r == extraction(self.spec.rules@, self.metadata.hostname, *resp),
    {
        let req = &resp.request;
        let host = match req.uri.host() {
            Some(h) => h,
            None => return None,
        };
        if !self.metadata.hostname.is_match(host) {
            return None;
        }
        let ghost req_doc = body_json(req.payload@);
        let ghost resp_doc = body_json(resp.payload@);
        let mut result = new_empty_object();
        let mut req_cache: Option<Option<serde_json::Value>> = None;
        let mut resp_cache: Option<Option<serde_json::Value>> = None;
        let rules = &self.spec.rules;
        let mut i: usize = 0;
        while i < rules.len()
            invariant
                i <= rules@.len(),
                req_doc == body_json(req.payload@),
                resp_doc == body_json(resp.payload@),
                host_matches(self.metadata.hostname, *resp),
                result == apply_rules(rules@.subrange(0, i as int), *req, req_doc, resp_doc, empty_object()),
                req_cache is Some ==> req_cache->Some_0 == req_doc,
                resp_cache is Some ==> resp_cache->Some_0 == resp_doc,
            decreases rules@.len() - i,
        {
            proof {
                assert(rules@.subrange(0, i + 1).drop_last() =~= rules@.subrange(0, i as int));
            }
            let rule = &rules[i];
            if rule.method == req.method && rule.path.is_match(req.uri.path()) {
                if rule.request.selectors.len() > 0 {
                    load_body_json(&mut req_cache, &req.payload);
                    match &req_cache {
                        Some(Some(doc)) => insert_all(&rule.request.selectors, doc, &mut result),
                        _ => {},
                    }
                }
                if rule.response.selectors.len() > 0 {
                    load_body_json(&mut resp_cache, &resp.payload);
                    match &resp_cache {
                        Some(Some(doc)) => insert_all(&rule.response.selectors, doc, &mut result),
                        _ => {},
                    }
                }
            }
            i = i + 1;
        }
        proof {
            assert(rules@.subrange(0, rules@.len() as int) =~= rules@);
        }
        Some(result)
    }
}

/// Adding a rule that does not apply to the request (another method, or a
/// path its expression does not match) anywhere in a processor's rules
/// leaves what the processor extracts unchanged.
pub proof fn non_matching_rule_changes_nothing(
    rules: Seq<SpecRule>,
    i: int,
    rule: SpecRule,
    hostname: Pattern,
    resp: Response,
)
    requires
        0 <= i <= rules.len(),
        !rule_applies(rule, resp.request),
    ensures
        extraction(rules.insert(i, rule), hostname, resp) == extraction(rules, hostname, resp),
{
    lemma_skip_rule(rules, i, rule, resp.request, body_json(resp.request.payload@), body_json(resp.payload@), empty_object());
}

proof fn lemma_skip_rule(
    rules: Seq<SpecRule>,
    i: int,
    rule: SpecRule,
    req: Request,
    req_doc: Option<serde_json::Value>,
    resp_doc: Option<serde_json::Value>,
    acc: serde_json::Value,
)
    requires
        0 <= i <= rules.len(),
        !rule_applies(rule, req),
    ensures
        apply_rules(rules.insert(i, rule), req, req_doc, resp_doc, acc) == apply_rules(rules, req, req_doc, resp_doc, acc),
    decreases rules.len(),
{
    let longer = rules.insert(i, rule);
    if i == rules.len() {
        assert(longer.drop_last() =~= rules);
        assert(longer.last() == rule);
    } else {
        assert(longer.drop_last() =~= rules.drop_last().insert(i, rule));
        assert(longer.last() == rules.last());
        lemma_skip_rule(rules.drop_last(), i, rule, req, req_doc, resp_doc, acc);
    }
}

} // verus!
