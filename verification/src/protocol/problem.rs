//! Problem details: the payload, headers and telemetry of an error response.

use vstd::prelude::*;
use crate::decimal::{decimal, u64_text};
use crate::fields::{
    fields, has_distinct_headers, lemma_set_header_distinct, set_header, set_headers, with_header,
    with_headers,
};
use crate::json::{json_quote, json_string};
use crate::text::{joined4, joined5, text_opt};

verus! {

/// RFC 9457 problem details payload used for server error responses.
#[derive(Debug, Clone, PartialEq, Eq)]
pub struct ProblemDetails {
    /// URI identifying the problem type.
    pub problem_type: String,
    /// Short, human-readable summary of the problem type.
    pub title: String,
    /// HTTP status code. Must match the response status line.
    pub status: u16,
    /// Machine-readable error code.
    pub code: String,
    /// Per-instance explanation of the error.
    pub detail: Option<String>,
    /// Request path or URI for the failing resource.
    pub instance: Option<String>,
}

/// What a payload says.
#[verifier::ext_equal]
pub struct ProblemView {
    pub problem_type: Seq<char>,
    pub title: Seq<char>,
    pub status: u16,
    pub code: Seq<char>,
    pub detail: Option<Seq<char>>,
    pub instance: Option<Seq<char>>,
}

impl View for ProblemDetails {
    type V = ProblemView;

    open spec fn view(&self) -> ProblemView {
        ProblemView {
            problem_type: self.problem_type@,
            title: self.title@,
            status: self.status,
            code: self.code@,
            detail: text_opt(self.detail),
            instance: text_opt(self.instance),
        }
    }
}

impl ProblemDetails {
    /// Create a new problem details payload with the required RFC 9457 fields.
    #[must_use]
    pub fn new(problem_type: &'static str, title: &'static str, status: u16, code: &'static str) -> (r: Self)
        ensures
            r@ == (ProblemView {
                problem_type: problem_type@,
                title: title@,
                status,
                code: code@,
                detail: None,
                instance: None,
            }),
    {
        ProblemDetails {
            problem_type: problem_type.to_owned(),
            title: title.to_owned(),
            status,
            code: code.to_owned(),
            detail: None,
            instance: None,
        }
    }

    /// Attach a problem-specific detail string.
    #[must_use]
    pub fn with_detail(self, detail: String) -> (r: Self)
        ensures
            r@ == (ProblemView { detail: Some(detail@), ..self@ }),
    {
        ProblemDetails { detail: Some(detail), ..self }
    }

    /// Attach the request instance path/URI.
    #[must_use]
    pub fn with_instance(self, instance: String) -> (r: Self)
        ensures
            r@ == (ProblemView { instance: Some(instance@), ..self@ }),
    {
        ProblemDetails { instance: Some(instance), ..self }
    }
}

/// An optional text as a member of a JSON object that other members precede.
pub open spec fn text_member(name: Seq<char>, value: Option<Seq<char>>) -> Seq<char> {
    match value {
        Some(t) => ",\""@ + name + "\":"@ + json_string(t),
        None => Seq::empty(),
    }
}

/// A payload as a JSON object: absent fields are left out.
pub open spec fn problem_json(p: ProblemView) -> Seq<char> {
    "{\"type\":"@ + json_string(p.problem_type) + ",\"title\":"@ + json_string(p.title)
        + ",\"status\":"@ + decimal(p.status as nat) + ",\"code\":"@ + json_string(p.code)
        + text_member("detail"@, p.detail) + text_member("instance"@, p.instance) + "}"@
}

fn text_member_of(name: &'static str, value: &Option<String>) -> (r: String)
    ensures
        r@ == text_member(name@, text_opt(*value)),
{
    match value {
        Some(t) => joined4(",\"", name, "\":", json_quote(t.as_str()).as_str()),
        None => {
            let empty = String::new();
            assert(empty@ =~= Seq::<char>::empty());
            empty
        },
    }
}

impl ProblemDetails {
    /// The payload as a JSON object: absent fields are left out.
    pub fn to_json(&self) -> (r: String)
        ensures
            r@ == problem_json(self@),
    {
        let head = joined4(
            "{\"type\":",
            json_quote(self.problem_type.as_str()).as_str(),
            ",\"title\":",
            json_quote(self.title.as_str()).as_str(),
        );
        let numbered = joined5(
            head.as_str(),
            ",\"status\":",
            u64_text(self.status as u64).as_str(),
            ",\"code\":",
            json_quote(self.code.as_str()).as_str(),
        );
        joined4(
            numbered.as_str(),
            text_member_of("detail", &self.detail).as_str(),
            text_member_of("instance", &self.instance).as_str(),
            "}",
        )
    }
}

/// Telemetry metadata copied from the final problem response.
#[derive(Debug, Clone)]
pub struct ProblemTelemetry {
    pub problem_type: String,
    pub code: String,
    pub title: String,
    pub detail: Option<String>,
    pub error_class: Option<String>,
    pub storage_backend: Option<String>,
    pub storage_operation: Option<String>,
    pub internal_detail: Option<String>,
    pub retry_after_secs: Option<u32>,
}

/// What telemetry says.
#[verifier::ext_equal]
pub struct TelemetryView {
    pub problem_type: Seq<char>,
    pub code: Seq<char>,
    pub title: Seq<char>,
    pub detail: Option<Seq<char>>,
    pub error_class: Option<Seq<char>>,
    pub storage_backend: Option<Seq<char>>,
    pub storage_operation: Option<Seq<char>>,
    pub internal_detail: Option<Seq<char>>,
    pub retry_after_secs: Option<u32>,
}

impl View for ProblemTelemetry {
    type V = TelemetryView;

    open spec fn view(&self) -> TelemetryView {
        TelemetryView {
            problem_type: self.problem_type@,
            code: self.code@,
            title: self.title@,
            detail: text_opt(self.detail),
            error_class: text_opt(self.error_class),
            storage_backend: text_opt(self.storage_backend),
            storage_operation: text_opt(self.storage_operation),
            internal_detail: text_opt(self.internal_detail),
            retry_after_secs: self.retry_after_secs,
        }
    }
}

/// Telemetry that repeats what the payload says and adds nothing.
pub open spec fn telemetry_of(problem: ProblemView) -> TelemetryView {
    TelemetryView {
        problem_type: problem.problem_type,
        code: problem.code,
        title: problem.title,
        detail: problem.detail,
        error_class: None,
        storage_backend: None,
        storage_operation: None,
        internal_detail: None,
        retry_after_secs: None,
    }
}

impl ProblemTelemetry {
    /// Telemetry that repeats what the payload says and adds nothing.
    pub fn of_problem(problem: &ProblemDetails) -> (r: Self)
        ensures
            r@ == telemetry_of(problem@),
    {
        ProblemTelemetry {
            problem_type: problem.problem_type.clone(),
            code: problem.code.clone(),
            title: problem.title.clone(),
            detail: problem.detail.clone(),
            error_class: None,
            storage_backend: None,
            storage_operation: None,
            internal_detail: None,
            retry_after_secs: None,
        }
    }
}

/// Builder for structured error responses with protocol-specific headers.
#[derive(Debug, Clone)]
pub struct ProblemResponse {
    pub problem: ProblemDetails,
    pub headers: Vec<(String, String)>,
    pub telemetry: Option<ProblemTelemetry>,
}

/// What a problem response holds.
#[verifier::ext_equal]
pub struct ResponseView {
    pub problem: ProblemView,
    pub headers: Seq<(Seq<char>, Seq<char>)>,
    pub telemetry: Option<TelemetryView>,
}

impl ResponseView {
    /// Whether no header is there twice.
    pub open spec fn is_valid(self) -> bool {
        has_distinct_headers(self.headers)
    }
}

impl View for ProblemResponse {
    type V = ResponseView;

    open spec fn view(&self) -> ResponseView {
        ResponseView {
            problem: self.problem@,
            headers: fields(self.headers@),
            telemetry: match self.telemetry {
                Some(t) => Some(t@),
                None => None,
            },
        }
    }
}

impl ProblemResponse {
    /// Create a problem response from an RFC 9457 payload.
    #[must_use]
    pub fn new(problem: ProblemDetails) -> (r: Self)
        ensures
            r@ == (ResponseView { problem: problem@, headers: Seq::empty(), telemetry: None }),
            r@.is_valid(),
    {
        let r = ProblemResponse { problem, headers: Vec::new(), telemetry: None };
        assert(fields(r.headers@) =~= Seq::empty());
        r
    }

    /// Attach a problem detail.
    #[must_use]
    pub fn with_detail(self, detail: String) -> (r: Self)
        ensures
            r@ == (ResponseView {
                problem: ProblemView { detail: Some(detail@), ..self@.problem },
                ..self@
            }),
    {
        ProblemResponse { problem: self.problem.with_detail(detail), headers: self.headers, telemetry: self.telemetry }
    }

    /// Attach the request instance path/URI.
    #[must_use]
    pub fn with_instance(self, instance: String) -> (r: Self)
        ensures
            r@ == (ResponseView {
                problem: ProblemView { instance: Some(instance@), ..self@.problem },
                ..self@
            }),
    {
        ProblemResponse { problem: self.problem.with_instance(instance), headers: self.headers, telemetry: self.telemetry }
    }

    /// Attach an additional response header, in place of one of the same name in any case.
    #[must_use]
    pub fn with_header(self, key: String, value: String) -> (r: Self)
        ensures
            r@ == (ResponseView { headers: with_header(self@.headers, key@, value@), ..self@ }),
            self@.is_valid() ==> r@.is_valid(),
    {
        proof {
            if self@.is_valid() {
                lemma_set_header_distinct(self@.headers, key@, value@);
            }
        }
        let mut headers = self.headers;
        set_header(&mut headers, key, value);
        ProblemResponse { problem: self.problem, headers, telemetry: self.telemetry }
    }

    /// Attach explicit telemetry metadata that differs from the public problem payload.
    #[must_use]
    pub fn with_telemetry(self, telemetry: ProblemTelemetry) -> (r: Self)
        ensures
            r@ == (ResponseView { telemetry: Some(telemetry@), ..self@ }),
    {
        ProblemResponse { problem: self.problem, headers: self.headers, telemetry: Some(telemetry) }
    }
}

/// An error response as it is sent.
#[derive(Debug)]
pub struct WireProblem {
    pub status: u16,
    pub headers: Vec<(String, String)>,
    pub body: String,
    /// What is recorded of it.
    pub telemetry: ProblemTelemetry,
}

/// The status of an error response: that of its payload, where it is one.
pub open spec fn wire_status(status: u16) -> u16 {
    if 100 <= status < 1000 {
        status
    } else {
        500
    }
}

/// Whether a response is sent as it should be.
pub open spec fn is_wire(r: WireProblem, response: ResponseView) -> bool {
    &&& r.status == wire_status(response.problem.status)
    &&& r.body@ == problem_json(response.problem)
    &&& fields(r.headers@) == with_headers(
        seq![("content-type"@, "application/problem+json"@)],
        response.headers,
    )
    &&& has_distinct_headers(fields(r.headers@))
    &&& r.telemetry@ == match response.telemetry {
        Some(t) => t,
        None => telemetry_of(response.problem),
    }
}

impl ProblemResponse {
    /// The response as it is sent: a JSON payload with the headers over it. Telemetry that was
    /// not given repeats what the payload says.
    pub fn into_wire(self) -> (r: WireProblem)
        ensures
            is_wire(r, self@),
    {
        let status = if 100 <= self.problem.status && self.problem.status < 1000 {
            self.problem.status
        } else {
            500
        };
        let body = self.problem.to_json();
        let telemetry = match self.telemetry {
            Some(t) => t,
            None => ProblemTelemetry::of_problem(&self.problem),
        };
        let mut headers: Vec<(String, String)> = Vec::new();
        headers.push(("content-type".to_owned(), "application/problem+json".to_owned()));
        assert(fields(headers@) =~= seq![("content-type"@, "application/problem+json"@)]);
        set_headers(&mut headers, &self.headers);
        WireProblem { status, headers, body, telemetry }
    }
}

/// The relative `instance` reference of a request target: the path and query where the
/// target has them, else the path.
#[must_use]
pub fn request_instance(path_and_query: Option<&str>, path: &str) -> (r: String)
    ensures
        r@ == match path_and_query {
            Some(pq) => pq@,
            None => path@,
        },
{
    match path_and_query {
        Some(pq) => pq.to_owned(),
        None => path.to_owned(),
    }
}

} // verus!
