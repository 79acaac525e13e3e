//! The proxy-or-mock engine. For each inbound request it decides whether a
//! synthetic response, driven by a feature-flag evaluation, answers the
//! request, or whether the request is forwarded to the origin named in its
//! headers. The engine is a pure decision core: the two outside capabilities
//! it coordinates — the Evaluation Service and the HTTP Forwarder — suspend,
//! so the engine names the call it wants as an `Action`, and is handed what
//! came back as the next `Event`. The host loop performs the calls.

use vstd::prelude::*;
use vstd::string::*;
use crate::headers::{header_lookup, forwarded_entries, Headers};
use crate::json::{find_field, json_of_text, json_text_of, json_to_string, obj_lookup, parse_json, Json};
use crate::num::{parse_u64, parse_u64_spec};

verus! {

/// An inbound HTTP method. Anything beyond the five the engine relays is
/// carried by name, to be refused with `501`.
#[derive(Debug, PartialEq, Eq)]
pub enum Method {
    Get,
    Post,
    Put,
    Delete,
    Patch,
    Other(String),
}

impl Method {
    /// Whether the engine can relay this method.
    pub open spec fn is_supported(&self) -> bool {
        !(self is Other)
    }

    /// Whether forwarding sends a body for this method.
    pub open spec fn takes_body(&self) -> bool {
        self is Post || self is Put || self is Patch
    }

    /// The method's wire name.
    pub open spec fn name_view(&self) -> Seq<char> {
        match self {
            Method::Get => "GET"@,
            Method::Post => "POST"@,
            Method::Put => "PUT"@,
            Method::Delete => "DELETE"@,
            Method::Patch => "PATCH"@,
            Method::Other(s) => s@,
        }
    }

    /// The method's wire name.
    pub fn name(&self) -> (r: String)
        ensures
            r@ == self.name_view(),
    {
        match self {
            Method::Get => String::from_str("GET"),
            Method::Post => String::from_str("POST"),
            Method::Put => String::from_str("PUT"),
            Method::Delete => String::from_str("DELETE"),
            Method::Patch => String::from_str("PATCH"),
            Method::Other(s) => s.clone(),
        }
    }
}

/// A normalized inbound request: method, path (empty means root), the header
/// collection, and an optional JSON body.
pub struct Request {
    pub method: Method,
    pub path: String,
    pub headers: Headers,
    pub body: Option<Json>,
}

/// The unified response shape handed back to the original caller, whichever
/// path produced it.
#[derive(Debug, PartialEq, Eq)]
pub struct Envelope {
    pub status: u16,
    pub body: Json,
}

/// The request errors the engine raises itself; each knows its HTTP status
/// and message.
#[derive(Debug, PartialEq, Eq)]
pub enum EngineError {
    /// A non-empty inbound body that is not JSON.
    InvalidJsonBody,
    /// Forwarding was reached with no `X-MOCK-ORIGINAL-URL` header.
    MissingOriginUrl,
    /// A method the engine does not relay, carried by name.
    UnsupportedMethod(String),
    /// The evaluation for the named feature did not decode as a mock
    /// definition.
    MockDecode(String),
    /// The named feature's mock carried a status code outside the legal
    /// range; the code rides along.
    MockStatus(String, u64),
}

impl EngineError {
    /// The HTTP status this error answers with.
    pub open spec fn status_view(&self) -> u16 {
        match self {
            EngineError::InvalidJsonBody => 400,
            EngineError::MissingOriginUrl => 400,
            EngineError::UnsupportedMethod(_) => 501,
            EngineError::MockDecode(_) => 500,
            EngineError::MockStatus(_, _) => 500,
        }
    }

    /// The HTTP status this error answers with.
    pub fn status_code(&self) -> (r: u16)
        ensures
            r == self.status_view(),
    {
        match self {
            EngineError::InvalidJsonBody => 400,
            EngineError::MissingOriginUrl => 400,
            EngineError::UnsupportedMethod(_) => 501,
            EngineError::MockDecode(_) => 500,
            EngineError::MockStatus(_, _) => 500,
        }
    }

    /// The message this error answers with.
    pub open spec fn message_view(&self) -> Seq<char> {
        match self {
            EngineError::InvalidJsonBody => "Invalid JSON"@,
            EngineError::MissingOriginUrl => "X-MOCK-ORIGINAL-URL header is missing"@,
            EngineError::UnsupportedMethod(m) => "Unsupported method: "@ + m@,
            EngineError::MockDecode(f) => "Failed to deserialize feature "@ + f@ + " with mock"@,
            EngineError::MockStatus(f, _) => "Invalid mock response status code for feature "@
                + f@,
        }
    }

    /// The message this error answers with.
    pub fn message(&self) -> (r: String)
        ensures
            r@ == self.message_view(),
    {
        match self {
            EngineError::InvalidJsonBody => String::from_str("Invalid JSON"),
            EngineError::MissingOriginUrl => String::from_str(
                "X-MOCK-ORIGINAL-URL header is missing",
            ),
            EngineError::UnsupportedMethod(m) => String::from_str("Unsupported method: ").concat(
                m.as_str(),
            ),
            EngineError::MockDecode(f) => String::from_str("Failed to deserialize feature ")
                .concat(f.as_str()).concat(" with mock"),
            EngineError::MockStatus(f, _) => String::from_str(
                "Invalid mock response status code for feature ",
            ).concat(f.as_str()),
        }
    }
}

/// What the engine asks the Evaluation Service: the feature to evaluate, and
/// the per-request context — a fresh identifier and the request's shape.
pub struct EvalQuery {
    pub feature: String,
    pub request_id: String,
    pub method_attr: String,
    pub path_attr: String,
    pub body_attr: String,
}

/// What the engine asks the HTTP Forwarder to send.
pub struct ForwardRequest {
    pub origin_url: String,
    pub timeout_ms: u64,
    pub connect_timeout_ms: u64,
    pub method: Method,
    pub path: String,
    pub body: Option<Json>,
    pub headers: Headers,
}

/// What came back from the HTTP Forwarder: the upstream's response, or the
/// failure the Forwarder surfaced — its status, and whatever body it captured.
#[derive(Debug, PartialEq, Eq)]
pub enum ForwardOutcome {
    Success { status: u16, body: Option<Json> },
    Failure { status: u16, json_body: Option<Json>, text_body: Option<String> },
}

/// What has happened so far for this request: nothing yet, the Evaluation
/// Service answered, or the Forwarder finished.
pub enum Event {
    Start,
    Evaluated(String),
    Forwarded(ForwardOutcome),
}

/// What the engine wants next: one of the two outside calls, or the request
/// is settled — with a response, or with an engine error.
pub enum Action {
    Evaluate(EvalQuery),
    Forward(ForwardRequest),
    Reply(Envelope),
    Fail(EngineError),
}

/// The `feature-name` directive: the `X-MOCK-FEATURE` header, if present.
pub open spec fn feature_name(h: Seq<(Seq<char>, Seq<char>)>) -> Option<Seq<char>> {
    header_lookup(h, "X-MOCK-FEATURE"@)
}

/// The `origin-url` directive: the `X-MOCK-ORIGINAL-URL` header, if present.
pub open spec fn origin_url(h: Seq<(Seq<char>, Seq<char>)>) -> Option<Seq<char>> {
    header_lookup(h, "X-MOCK-ORIGINAL-URL"@)
}

/// The `timeout-ms` directive: the `X-MOCK-TIMEOUT` header read as a number,
/// falling back to 1000 on absence or any parse failure — never fatal.
pub open spec fn timeout_ms(h: Seq<(Seq<char>, Seq<char>)>) -> u64 {
    match header_lookup(h, "X-MOCK-TIMEOUT"@) {
        Some(v) => match parse_u64_spec(v) {
            Some(n) => n,
            None => 1000,
        },
        None => 1000,
    }
}

/// Whether mock resolution consults the Evaluation Service at all: only with
/// a `feature-name` directive and a configured service.
pub open spec fn mock_attempted(h: Seq<(Seq<char>, Seq<char>)>, has_service: bool) -> bool {
    has_service && feature_name(h) is Some
}

/// The feature name the request names, or empty where it names none.
pub open spec fn feature_or_empty(h: Seq<(Seq<char>, Seq<char>)>) -> Seq<char> {
    match feature_name(h) {
        Some(f) => f,
        None => Seq::empty(),
    }
}

/// Whether an evaluation result means "no mock": the sentinel default or an
/// empty string.
pub open spec fn is_sentinel(v: Seq<char>) -> bool {
    v.len() == 0 || v == "None"@
}

/// The mock definition a decoded evaluation carries: the document must be an
/// object whose `response_status_code` is an integer that fits a `u16`, with
/// a `body` field of any shape.
pub open spec fn decoded_feature(j: Json) -> Option<(u64, Json)> {
    match j {
        Json::Obj(fields) => match obj_lookup(fields@, "response_status_code"@) {
            Some(code_field) => match code_field {
                Json::Num(t) => match parse_u64_spec(t@) {
                    Some(n) => if n <= 65535 {
                        match obj_lookup(fields@, "body"@) {
                            Some(b) => Some((n, b)),
                            None => None,
                        }
                    } else {
                        None
                    },
                    None => None,
                },
                _ => None,
            },
            None => None,
        },
        _ => None,
    }
}

/// How a non-sentinel evaluation settles the request: a decode failure or an
/// out-of-range status code is fatal for the request, a legal mock definition
/// becomes the response envelope.
pub open spec fn feature_result(
    feature: Seq<char>,
    j: Json,
    r: Result<Envelope, EngineError>,
) -> bool {
    match decoded_feature(j) {
        None => r matches Err(EngineError::MockDecode(f)) && f@ == feature,
        Some((code, body)) => if 100 <= code && code <= 999 {
            r matches Ok(env) && env.status as u64 == code && env.body == body
        } else {
            r matches Err(EngineError::MockStatus(f, c)) && f@ == feature && c == code
        },
    }
}

/// `feature_result`, reached through reading the evaluation text as JSON.
pub open spec fn mock_result(
    feature: Seq<char>,
    value: Seq<char>,
    r: Result<Envelope, EngineError>,
) -> bool {
    match json_of_text(value) {
        None => r matches Err(EngineError::MockDecode(f)) && f@ == feature,
        Some(j) => feature_result(feature, j, r),
    }
}

/// The shape every forwarded request has: the caller's origin and timeout
/// directives, the method and `/`-prefixed path, the original body (null for
/// a bodiless write), and every header but `Host`.
pub open spec fn forward_shape(req: Request, f: ForwardRequest) -> bool {
    &&& origin_url(req.headers@) matches Some(url) && f.origin_url@ == url
    &&& f.timeout_ms == timeout_ms(req.headers@)
    &&& f.connect_timeout_ms == 1000
    &&& f.method == req.method
    &&& f.path@ == "/"@ + req.path@
    &&& f.headers@ == forwarded_entries(req.headers@)
    &&& if req.method.takes_body() {
        f.body == Some(
            match req.body {
                Some(b) => b,
                None => Json::Null,
            },
        )
    } else {
        f.body == None::<Json>
    }
}

/// How planning the forward settles: a missing `origin-url` is a request
/// error, an unrelayable method is refused, anything else forwards.
pub open spec fn forward_result(req: Request, r: Result<ForwardRequest, EngineError>) -> bool {
    match r {
        Ok(f) => origin_url(req.headers@) is Some && req.method.is_supported() && forward_shape(
            req,
            f,
        ),
        Err(e) => match e {
            EngineError::MissingOriginUrl => origin_url(req.headers@) is None,
            EngineError::UnsupportedMethod(m) => origin_url(req.headers@) is Some
                && !req.method.is_supported() && m@ == req.method.name_view(),
            _ => false,
        },
    }
}

/// The evaluation query built for a request: its feature name, a fresh
/// 36-character identifier, and the request's method, `/`-prefixed path and
/// serialized body as context attributes.
pub open spec fn evaluation_query(req: Request, q: EvalQuery) -> bool {
    &&& q.feature@ == feature_or_empty(req.headers@)
    &&& q.request_id@.len() == 36
    &&& q.method_attr@ == req.method.name_view()
    &&& q.path_attr@ == "/"@ + req.path@
    &&& q.body_attr@ == match req.body {
        Some(b) => json_text_of(b),
        None => Seq::<char>::empty(),
    }
}

/// How a forwarder outcome is translated for the caller: the upstream status
/// and body on success (null where the upstream sent none); on failure the
/// failure's status, with a body chosen by priority — the captured JSON
/// payload, else the raw error text as a JSON string, else null.
pub open spec fn outcome_envelope(outcome: ForwardOutcome, env: Envelope) -> bool {
    match outcome {
        ForwardOutcome::Success { status, body } => env.status == status && env.body == match body {
            Some(b) => b,
            None => Json::Null,
        },
        ForwardOutcome::Failure { status, json_body, text_body } => env.status == status
            && env.body == match json_body {
            Some(j) => j,
            None => match text_body {
                Some(t) => Json::Str(t),
                None => Json::Null,
            },
        },
    }
}

/// `forward_result`, said of the engine's action.
pub open spec fn forward_decision(req: Request, r: Action) -> bool {
    match r {
        Action::Forward(f) => forward_result(req, Ok(f)),
        Action::Fail(e) => forward_result(req, Err(e)),
        _ => false,
    }
}

/// `mock_result`, said of the engine's action.
pub open spec fn mock_action(feature: Seq<char>, value: Seq<char>, r: Action) -> bool {
    match r {
        Action::Reply(env) => mock_result(feature, value, Ok(env)),
        Action::Fail(e) => mock_result(feature, value, Err(e)),
        _ => false,
    }
}

/// The whole engine, as a relation between what happened and what it does
/// next: at the start, consult the Evaluation Service exactly where a mock is
/// attempted, else plan the forward; on an evaluation, a sentinel forwards
/// and anything else resolves the mock; a forwarder outcome is always
/// translated into a reply.
pub open spec fn engine_decision(req: Request, has_service: bool, event: Event, r: Action) -> bool {
    match event {
        Event::Start => if mock_attempted(req.headers@, has_service) {
            r matches Action::Evaluate(q) && evaluation_query(req, q)
        } else {
            forward_decision(req, r)
        },
        Event::Evaluated(value) => if is_sentinel(value@) {
            forward_decision(req, r)
        } else {
            mock_action(feature_or_empty(req.headers@), value@, r)
        },
        Event::Forwarded(outcome) => r matches Action::Reply(env) && outcome_envelope(
            outcome,
            env,
        ),
    }
}

/// Relies on uuid: `Uuid::now_v7` printed in its hyphenated form, which is
/// always 36 characters; the value itself is fresh each call and nothing
/// more is assumed of it.
#[verifier::external_body]
fn new_request_id() -> (r: String)
    ensures
        r@.len() == 36,
{
    uuid::Uuid::now_v7().to_string()
}

/// Whether an evaluation result means "no mock".
pub fn sentinel_value(value: &str) -> (r: bool)
    ensures
        r == is_sentinel(value@),
{
    if value.is_empty() {
        true
    } else {
        let v = value.to_owned();
        let none_str = String::from_str("None");
        v == none_str
    }
}

/// Reads an inbound body: empty means no body, anything else must be JSON —
/// rejected before the engine runs, with a request error.
pub fn parse_body_to_json(body: &str) -> (r: Result<Option<Json>, EngineError>)
    ensures
        body@.len() == 0 ==> r == Ok::<Option<Json>, EngineError>(None),
        body@.len() > 0 ==> match json_of_text(body@) {
            Some(j) => r == Ok::<Option<Json>, EngineError>(Some(j)),
            None => r == Err::<Option<Json>, EngineError>(EngineError::InvalidJsonBody),
        },
{
    if body.is_empty() {
        return Ok(None);
    }
    match parse_json(body) {
        Some(j) => Ok(Some(j)),
        None => Err(EngineError::InvalidJsonBody),
    }
}

/// Builds the evaluation query for a request whose feature name is `feature`.
pub fn plan_evaluation(feature: String, req: Request) -> (q: EvalQuery)
    ensures
        q.feature == feature,
        q.request_id@.len() == 36,
        q.method_attr@ == req.method.name_view(),
        q.path_attr@ == "/"@ + req.path@,
        q.body_attr@ == match req.body {
            Some(b) => json_text_of(b),
            None => Seq::<char>::empty(),
        },
{
    let method_attr = req.method.name();
    let path_attr = String::from_str("/").concat(req.path.as_str());
    let body_attr = match &req.body {
        Some(b) => json_to_string(b),
        None => String::new(),
    };
    EvalQuery { feature, request_id: new_request_id(), method_attr, path_attr, body_attr }
}

/// Plans the forward for a request no mock answered: refuses a request with
/// no origin directive or an unrelayable method, and otherwise fixes the
/// outbound shape — before any network activity.
pub fn plan_forward(req: Request) -> (r: Result<ForwardRequest, EngineError>)
    ensures
        forward_result(req, r),
{
    let origin = match req.headers.get("X-MOCK-ORIGINAL-URL") {
        Some(u) => u,
        None => {
            return Err(EngineError::MissingOriginUrl);
        },
    };
    let timeout: u64 = match req.headers.get("X-MOCK-TIMEOUT") {
        Some(t) => match parse_u64(t.as_str()) {
            Some(n) => n,
            None => 1000,
        },
        None => 1000,
    };
    let supported = match &req.method {
        Method::Other(_) => false,
        _ => true,
    };
    if !supported {
        return Err(EngineError::UnsupportedMethod(req.method.name()));
    }
    let takes_body = match &req.method {
        Method::Post | Method::Put | Method::Patch => true,
        _ => false,
    };
    let Request { method, path, headers, body } = req;
    let fwd_body = if takes_body {
        Some(
            match body {
                Some(b) => b,
                None => Json::Null,
            },
        )
    } else {
        None
    };
    let fwd_headers = headers.without_host();
    let fwd_path = String::from_str("/").concat(path.as_str());
    Ok(
        ForwardRequest {
            origin_url: origin,
            timeout_ms: timeout,
            connect_timeout_ms: 1000,
            method,
            path: fwd_path,
            body: fwd_body,
            headers: fwd_headers,
        },
    )
}

/// Resolves a mock from an already-decoded evaluation document. Everything
/// after the outside parse happens here, so any document — however obtained —
/// settles the same way.
pub fn mock_from_json(feature: String, parsed: Json) -> (r: Result<Envelope, EngineError>)
    ensures
        feature_result(feature@, parsed, r),
{
    let fields = match parsed {
        Json::Obj(fields) => fields,
        _ => {
            return Err(EngineError::MockDecode(feature));
        },
    };
    let code_key = String::from_str("response_status_code");
    let i = match find_field(&fields, &code_key) {
        Some(i) => i,
        None => {
            return Err(EngineError::MockDecode(feature));
        },
    };
    let code: u64 = match &fields[i].1 {
        Json::Num(t) => match parse_u64(t.as_str()) {
            Some(n) => if n <= 65535 {
                n
            } else {
                return Err(EngineError::MockDecode(feature));
            },
            None => {
                return Err(EngineError::MockDecode(feature));
            },
        },
        _ => {
            return Err(EngineError::MockDecode(feature));
        },
    };
    let body_key = String::from_str("body");
    let mut fields = fields;
    let j = match find_field(&fields, &body_key) {
        Some(j) => j,
        None => {
            return Err(EngineError::MockDecode(feature));
        },
    };
    let body = fields.remove(j).1;
    if 100 <= code && code <= 999 {
        Ok(Envelope { status: code as u16, body })
    } else {
        Err(EngineError::MockStatus(feature, code))
    }
}

/// Resolves a non-sentinel evaluation: decode it as a mock definition and
/// build the envelope, or fail the request with the matching engine error.
pub fn decode_mock(feature: String, value: &str) -> (r: Result<Envelope, EngineError>)
    ensures
        mock_result(feature@, value@, r),
{
    match parse_json(value) {
        Some(j) => mock_from_json(feature, j),
        None => Err(EngineError::MockDecode(feature)),
    }
}

/// Translates whatever the Forwarder did into the caller's envelope: the
/// caller always receives a response, never a dropped connection.
pub fn translate_outcome(outcome: ForwardOutcome) -> (env: Envelope)
    ensures
        outcome_envelope(outcome, env),
{
    match outcome {
        ForwardOutcome::Success { status, body } => Envelope {
            status,
            body: match body {
                Some(b) => b,
                None => Json::Null,
            },
        },
        ForwardOutcome::Failure { status, json_body, text_body } => Envelope {
            status,
            body: match json_body {
                Some(j) => j,
                None => match text_body {
                    Some(t) => Json::Str(t),
                    None => Json::Null,
                },
            },
        },
    }
}

/// The engine's entry point.
pub struct ProxyService;

impl ProxyService {
    /// One engine step: given the inbound request, whether an Evaluation
    /// Service is configured, and what has happened so far, decide what
    /// happens next. A request that never names a feature, or a deployment
    /// with no Evaluation Service, never evaluates anything; a sentinel
    /// evaluation forwards instead of mocking; a mock reply bypasses
    /// forwarding entirely — no forward is planned on that path.
    pub fn proxy_or_mock(req: Request, has_service: bool, event: Event) -> (r: Action)
        ensures
            engine_decision(req, has_service, event, r),
            event is Start && !mock_attempted(req.headers@, has_service) ==> !(r is Evaluate),
            event matches Event::Evaluated(v) && is_sentinel(v@) ==> forward_decision(req, r),
    {
        match event {
            Event::Start => {
                if has_service {
                    match req.headers.get("X-MOCK-FEATURE") {
                        Some(feature) => Action::Evaluate(plan_evaluation(feature, req)),
                        None => forward_action(req),
                    }
                } else {
                    forward_action(req)
                }
            },
            Event::Evaluated(value) => {
                if sentinel_value(value.as_str()) {
                    forward_action(req)
                } else {
                    let feature = match req.headers.get("X-MOCK-FEATURE") {
                        Some(f) => f,
                        None => String::new(),
                    };
                    match decode_mock(feature, value.as_str()) {
                        Ok(env) => Action::Reply(env),
                        Err(e) => Action::Fail(e),
                    }
                }
            },
            Event::Forwarded(outcome) => Action::Reply(translate_outcome(outcome)),
        }
    }
}

/// Plans the forward and wraps it as the engine's action.
fn forward_action(req: Request) -> (r: Action)
    ensures
        forward_decision(req, r),
{
    match plan_forward(req) {
        Ok(f) => Action::Forward(f),
        Err(e) => Action::Fail(e),
    }
}

/// Idempotence of the forward path: any two forward requests planned for the
/// same inbound request carry the same outbound shape — origin, timeout,
/// method, path, body and headers minus `Host`.
pub proof fn lemma_forward_plan_idempotent(req: Request, f1: ForwardRequest, f2: ForwardRequest)
    requires
        forward_shape(req, f1),
        forward_shape(req, f2),
    ensures
        f1.origin_url@ == f2.origin_url@,
        f1.timeout_ms == f2.timeout_ms,
        f1.connect_timeout_ms == f2.connect_timeout_ms,
        f1.method == f2.method,
        f1.path@ == f2.path@,
        f1.body == f2.body,
        f1.headers@ == f2.headers@,
{
}

/// A forwarder failure is translated, never raised: the envelope keeps the
/// failure's status, so a failure the Forwarder reports as non-2xx reaches
/// the caller as a non-2xx response — with a body, whatever was captured.
pub proof fn lemma_failure_translated(outcome: ForwardOutcome, env: Envelope)
    requires
        outcome_envelope(outcome, env),
        outcome matches ForwardOutcome::Failure { status, .. } && !(200 <= status < 300),
    ensures
        !(200 <= env.status < 300),
{
}

} // verus!
