//! What the HTTP client sends, how it reads the answers, and when it
//! retries a request.

use vstd::prelude::*;
use vstd::string::*;

use crate::decimal::{lemma_parse_decimal_round_trip, nat_to_decimal, parse_u64, std_parse_int};
use crate::hyper_tokio::hyper_reqresp::{auth_value, base64_standard, pairs_view, HyperReqRespUtils};

verus! {

/// The HTTP status `OK`.
pub const HTTP_OK: u16 = 200;

/// The HTTP status `No Content`.
pub const HTTP_NO_CONTENT: u16 = 204;

/// The HTTP status `Too Many Requests`.
pub const HTTP_TOO_MANY_REQUESTS: u16 = 429;

/// The methods of the requests that the client sends.
#[derive(Debug, Clone, Copy, PartialEq, Eq)]
pub enum SlackHttpMethod {
    Get,
    Post,
}

/// A request to send: its method, URI, headers in order, and body.
#[derive(Debug, Clone, PartialEq)]
pub struct SlackHttpRequestPlan {
    pub method: SlackHttpMethod,
    pub uri: String,
    pub headers: Vec<(String, String)>,
    pub body: Option<String>,
}

/// The header that every request carries.
pub open spec fn charset_header() -> (Seq<char>, Seq<char>) {
    ("accept-charset"@, "utf-8"@)
}

/// The content type of the JSON bodies the client posts.
pub open spec fn json_content_type_header() -> (Seq<char>, Seq<char>) {
    ("content-type"@, "application/json; charset=utf-8"@)
}

/// The `Authorization` header of a request with a token, if there is one.
pub open spec fn bearer_headers(token: Option<Seq<char>>) -> Seq<(Seq<char>, Seq<char>)> {
    match token {
        None => Seq::empty(),
        Some(t) => seq![("authorization"@, auth_value("Bearer"@, t))],
    }
}

/// A token as text.
pub open spec fn token_view(token: Option<&str>) -> Option<Seq<char>> {
    match token {
        None => None,
        Some(t) => Some(t@),
    }
}

fn header(name: &str, value: String) -> (r: (String, String))
    ensures
        r.0@ == name@,
        r.1 == value,
{
    (String::from_str(name), value)
}

fn charset() -> (r: (String, String))
    ensures
        (r.0@, r.1@) == charset_header(),
{
    proof {
        reveal_strlit("accept-charset");
        reveal_strlit("utf-8");
    }
    header("accept-charset", String::from_str("utf-8"))
}

fn push_bearer(headers: &mut Vec<(String, String)>, token: Option<&str>)
    ensures
        pairs_view(final(headers)@) == pairs_view(old(headers)@) + bearer_headers(token_view(token)),
{
    let ghost before = headers@;
    match HyperReqRespUtils::setup_token_auth_header(token) {
        None => {
            assert(headers@ =~= before);
        },
        Some(value) => {
            proof {
                reveal_strlit("authorization");
            }
            headers.push(header("authorization", value));
            assert(pairs_view(headers@) =~= pairs_view(before) + bearer_headers(token_view(token)));
        },
    }
}

/// A `GET` of a URI, with the token when there is one.
pub fn http_get_uri(full_uri: &str, token: Option<&str>) -> (r: SlackHttpRequestPlan)
    ensures
        r.method == SlackHttpMethod::Get,
        r.uri@ == full_uri@,
        pairs_view(r.headers@) == seq![charset_header()] + bearer_headers(token_view(token)),
        r.body is None,
{
    let mut headers: Vec<(String, String)> = Vec::new();
    headers.push(charset());
    assert(pairs_view(headers@) =~= seq![charset_header()]);
    push_bearer(&mut headers, token);
    SlackHttpRequestPlan { method: SlackHttpMethod::Get, uri: String::from_str(full_uri), headers, body: None }
}

/// A `GET` of a URI with the basic credentials of an OAuth client.
pub fn http_get_with_client_secret(full_uri: &str, client_id: &str, client_secret: &str) -> (r: SlackHttpRequestPlan)
    ensures
        r.method == SlackHttpMethod::Get,
        r.uri@ == full_uri@,
        pairs_view(r.headers@) == seq![
            charset_header(),
            ("authorization"@, auth_value("Basic"@, base64_standard(vstd::utf8::encode_utf8(client_id@ + ":"@ + client_secret@)))),
        ],
        r.body is None,
{
    let mut headers: Vec<(String, String)> = Vec::new();
    headers.push(charset());
    proof {
        reveal_strlit("authorization");
    }
    headers.push(header("authorization", HyperReqRespUtils::setup_basic_auth_header(client_id, client_secret)));
    assert(pairs_view(headers@) =~= seq![
        charset_header(),
        ("authorization"@, auth_value("Basic"@, base64_standard(vstd::utf8::encode_utf8(client_id@ + ":"@ + client_secret@)))),
    ]);
    SlackHttpRequestPlan { method: SlackHttpMethod::Get, uri: String::from_str(full_uri), headers, body: None }
}

/// A `POST` of a JSON body to a URI, with the token when there is one.
pub fn http_post_uri(full_uri: &str, post_json: String, token: Option<&str>) -> (r: SlackHttpRequestPlan)
    ensures
        r.method == SlackHttpMethod::Post,
        r.uri@ == full_uri@,
        pairs_view(r.headers@) == seq![charset_header(), json_content_type_header()] + bearer_headers(token_view(token)),
        r.body == Some(post_json),
{
    let mut headers: Vec<(String, String)> = Vec::new();
    headers.push(charset());
    proof {
        reveal_strlit("content-type");
        reveal_strlit("application/json; charset=utf-8");
    }
    headers.push(header("content-type", String::from_str("application/json; charset=utf-8")));
    assert(pairs_view(headers@) =~= seq![charset_header(), json_content_type_header()]);
    push_bearer(&mut headers, token);
    SlackHttpRequestPlan { method: SlackHttpMethod::Post, uri: String::from_str(full_uri), headers, body: Some(post_json) }
}

/// The URI of a request as the client writes it in its traces: for a
/// sensitive URL only the scheme and the host (`unknown-scheme` and
/// `unknown-host` when the URI has none) and `/-redacted-`; else the URI.
pub open spec fn logged_uri_text(uri: Seq<char>, scheme: Option<Seq<char>>, host: Option<Seq<char>>, is_sensitive_url: bool) -> Seq<char> {
    if is_sensitive_url {
        let s = match scheme { Some(s) => s, None => "unknown-scheme"@ };
        let h = match host { Some(h) => h, None => "unknown-host"@ };
        s + "://"@ + h + "/-redacted-"@
    } else {
        uri
    }
}

/// The URI of a request as the client writes it in its traces; `scheme` and
/// `host` are those of the URI.
pub fn logged_uri(uri: &str, scheme: Option<&str>, host: Option<&str>, is_sensitive_url: bool) -> (r: String)
    ensures
        r@ == logged_uri_text(uri@, token_view(scheme), token_view(host), is_sensitive_url),
{
    if is_sensitive_url {
        let mut text = match scheme {
            Some(s) => String::from_str(s),
            None => String::from_str("unknown-scheme"),
        };
        text.append("://");
        match host {
            Some(h) => text.append(h),
            None => text.append("unknown-host"),
        }
        text.append("/-redacted-");
        proof {
            reveal_strlit("unknown-scheme");
            reveal_strlit("unknown-host");
            reveal_strlit("://");
            reveal_strlit("/-redacted-");
        }
        text
    } else {
        String::from_str(uri)
    }
}

/// Whether the client reads the Slack envelope (`ok`, `error`, `warnings`)
/// of a response before it decides: for a JSON `200` or `429`.
pub open spec fn reads_envelope(status: u16, content_is_json: bool) -> bool {
    content_is_json && (status == HTTP_OK || status == HTTP_TOO_MANY_REQUESTS)
}

/// The Slack envelope of a JSON response: its error code, the errors and the
/// warnings that come with it.
#[derive(Debug, Clone, PartialEq, Eq)]
pub struct SlackEnvelopeMessage {
    pub error: Option<String>,
    pub errors: Option<Vec<String>>,
    pub warnings: Option<Vec<String>>,
}

impl SlackEnvelopeMessage {
    /// An envelope with no error, errors or warnings: what stands for one
    /// that was not read.
    pub fn new() -> (r: Self)
        ensures
            r == (SlackEnvelopeMessage { error: None, errors: None, warnings: None }),
    {
        SlackEnvelopeMessage { error: None, errors: None, warnings: None }
    }
}

/// What a response comes to.
#[derive(Debug, Clone, PartialEq, Eq)]
pub enum SlackResponseOutcome {
    /// Decode the body as the result.
    DecodeBody,
    /// Decode `{}` as the result: a success with no JSON content.
    DecodeEmptyObject,
    /// Slack answered with an error code, and the errors and warnings of its
    /// envelope.
    ApiError { code: String, errors: Option<Vec<String>>, warnings: Option<Vec<String>> },
    /// Slack limited the rate; it may say after how many seconds to retry,
    /// and with which code and warnings.
    RateLimited { retry_after_seconds: Option<u64>, code: Option<String>, warnings: Option<Vec<String>> },
    /// Any other status.
    HttpError { status: u16 },
}

/// The seconds of a `Retry-After` header, when it holds a number of them.
pub open spec fn retry_after_of(header: Option<Seq<char>>) -> Option<u64> {
    match header {
        None => None,
        Some(text) => match std_parse_int(text, false, 0, u64::MAX as int) {
            None => None,
            Some(v) => Some(v as u64),
        },
    }
}

/// The seconds of a `Retry-After` header, when it holds a number of them
/// as `u64` reads it.
pub fn retry_after_seconds(header: Option<&str>) -> (r: Option<u64>)
    ensures
        r == retry_after_of(token_view(header)),
{
    match header {
        None => None,
        Some(text) => parse_u64(text),
    }
}

/// What a response comes to, by its status, whether its content is JSON,
/// its envelope (read only when `reads_envelope` holds; an empty one
/// otherwise) and its `Retry-After` header.
pub open spec fn outcome_of(
    status: u16,
    content_is_json: bool,
    envelope: SlackEnvelopeMessage,
    retry_after: Option<Seq<char>>,
) -> SlackResponseOutcome {
    if status == HTTP_OK && content_is_json {
        match envelope.error {
            None => SlackResponseOutcome::DecodeBody,
            Some(code) => SlackResponseOutcome::ApiError {
                code,
                errors: envelope.errors,
                warnings: envelope.warnings,
            },
        }
    } else if status == HTTP_OK || status == HTTP_NO_CONTENT {
        SlackResponseOutcome::DecodeEmptyObject
    } else if status == HTTP_TOO_MANY_REQUESTS {
        SlackResponseOutcome::RateLimited {
            retry_after_seconds: retry_after_of(retry_after),
            code: if content_is_json { envelope.error } else { None },
            warnings: if content_is_json { envelope.warnings } else { None },
        }
    } else {
        SlackResponseOutcome::HttpError { status }
    }
}

/// A `429` is a rate limit whatever its content type: the seconds to wait
/// are those of its `Retry-After` header, read as a `u64` (none without the
/// header, or when it holds no such number), and the code and warnings are
/// those of its envelope when its content is JSON, none otherwise.
pub proof fn lemma_rate_limited_keeps_retry_after(
    content_is_json: bool,
    envelope: SlackEnvelopeMessage,
    retry_after: Option<Seq<char>>,
)
    ensures
        outcome_of(HTTP_TOO_MANY_REQUESTS, content_is_json, envelope, retry_after) == (SlackResponseOutcome::RateLimited {
            retry_after_seconds: match retry_after {
                None => None,
                Some(text) => match std_parse_int(text, false, 0, u64::MAX as int) {
                    None => None,
                    Some(v) => Some(v as u64),
                },
            },
            code: if content_is_json { envelope.error } else { None },
            warnings: if content_is_json { envelope.warnings } else { None },
        }),
        retry_after is None ==> outcome_of(HTTP_TOO_MANY_REQUESTS, content_is_json, envelope, retry_after)
            ->RateLimited_retry_after_seconds is None,
{
}

/// The wait of a `429` does not depend on its content type or its envelope:
/// a `Retry-After` header that holds the decimal number `seconds` makes the
/// client wait exactly `seconds`, for a JSON body and for any other alike.
pub proof fn lemma_retry_after_seconds_are_read(
    content_is_json: bool,
    envelope: SlackEnvelopeMessage,
    other_envelope: SlackEnvelopeMessage,
    seconds: u64,
)
    ensures
        outcome_of(HTTP_TOO_MANY_REQUESTS, content_is_json, envelope, Some(nat_to_decimal(seconds as nat)))
            ->RateLimited_retry_after_seconds == Some(seconds),
        outcome_of(HTTP_TOO_MANY_REQUESTS, content_is_json, envelope, Some(nat_to_decimal(seconds as nat)))
            ->RateLimited_retry_after_seconds
            == outcome_of(HTTP_TOO_MANY_REQUESTS, !content_is_json, other_envelope, Some(nat_to_decimal(seconds as nat)))
            ->RateLimited_retry_after_seconds,
{
    lemma_parse_decimal_round_trip(seconds as nat, u64::MAX as int);
}

/// A JSON `200` is the result when its envelope holds no error, and the
/// API error with the envelope's code, errors and warnings when it does; a
/// `200` of another content type, and any `204`, is an empty result.
pub proof fn lemma_success_outcomes(
    content_is_json: bool,
    envelope: SlackEnvelopeMessage,
    retry_after: Option<Seq<char>>,
)
    ensures
        content_is_json && envelope.error is None
            ==> outcome_of(HTTP_OK, content_is_json, envelope, retry_after) == SlackResponseOutcome::DecodeBody,
        content_is_json && envelope.error is Some
            ==> outcome_of(HTTP_OK, content_is_json, envelope, retry_after) == (SlackResponseOutcome::ApiError {
                code: envelope.error->0,
                errors: envelope.errors,
                warnings: envelope.warnings,
            }),
        !content_is_json
            ==> outcome_of(HTTP_OK, content_is_json, envelope, retry_after) == SlackResponseOutcome::DecodeEmptyObject,
        outcome_of(HTTP_NO_CONTENT, content_is_json, envelope, retry_after) == SlackResponseOutcome::DecodeEmptyObject,
{
}

/// Any status but `200`, `204` and `429` is an HTTP error that carries the
/// status, whatever the content type, the envelope and the headers.
pub proof fn lemma_other_statuses_are_http_errors(
    status: u16,
    content_is_json: bool,
    envelope: SlackEnvelopeMessage,
    retry_after: Option<Seq<char>>,
)
    requires
        status != HTTP_OK,
        status != HTTP_NO_CONTENT,
        status != HTTP_TOO_MANY_REQUESTS,
    ensures
        outcome_of(status, content_is_json, envelope, retry_after) == (SlackResponseOutcome::HttpError { status }),
{
}

/// Whether the client reads the envelope of a response before it decides.
pub fn response_reads_envelope(status: u16, content_is_json: bool) -> (r: bool)
    ensures
        r == reads_envelope(status, content_is_json),
{
    content_is_json && (status == HTTP_OK || status == HTTP_TOO_MANY_REQUESTS)
}

/// What a response comes to: a JSON `200` is the result unless its envelope
/// holds an error; any other `200`, and a `204`, is an empty result; a `429`
/// is a rate limit; any other status is an HTTP error.
pub fn response_outcome(
    status: u16,
    content_is_json: bool,
    envelope: SlackEnvelopeMessage,
    retry_after: Option<&str>,
) -> (r: SlackResponseOutcome)
    ensures
        r == outcome_of(status, content_is_json, envelope, token_view(retry_after)),
{
    if status == HTTP_OK && content_is_json {
        match envelope.error {
            None => SlackResponseOutcome::DecodeBody,
            Some(code) => SlackResponseOutcome::ApiError {
                code,
                errors: envelope.errors,
                warnings: envelope.warnings,
            },
        }
    } else if status == HTTP_OK || status == HTTP_NO_CONTENT {
        SlackResponseOutcome::DecodeEmptyObject
    } else if status == HTTP_TOO_MANY_REQUESTS {
        SlackResponseOutcome::RateLimited {
            retry_after_seconds: retry_after_seconds(retry_after),
            code: if content_is_json { envelope.error } else { None },
            warnings: if content_is_json { envelope.warnings } else { None },
        }
    } else {
        SlackResponseOutcome::HttpError { status }
    }
}

/// What follows a response.
#[derive(Debug, Clone, Copy, PartialEq, Eq)]
pub enum SlackRetryDecision {
    /// Send it again, after the delay that the rate limit gave, as retry
    /// number `retried`.
    Retry { retry_after_seconds: Option<u64>, retried: usize },
    /// Hand the result or the error back to the caller.
    Finish,
}

/// Whether a response is followed by another request: it is rate limited
/// and fewer than `max_retries` retries were made.
pub open spec fn retries(max_retries: Option<usize>, retried: int, rate_limited: bool) -> bool {
    rate_limited && match max_retries {
        Some(max) => retried < max,
        None => false,
    }
}

/// How many requests the resend loop sends, from `retried` retries made,
/// when its responses are rate limited as `rate_limited` says, in order:
/// each response is followed by another request exactly when [`retries`]
/// holds.
pub open spec fn requests_sent(max_retries: Option<usize>, retried: int, rate_limited: Seq<bool>) -> nat
    decreases rate_limited.len(),
{
    if rate_limited.len() == 0 {
        0
    } else if retries(max_retries, retried, rate_limited[0]) {
        1 + requests_sent(max_retries, retried + 1, rate_limited.drop_first())
    } else {
        1
    }
}

/// The retries allowed: `max_retries`, or none without it.
pub open spec fn retry_budget(max_retries: Option<usize>) -> int {
    match max_retries {
        Some(max) => max as int,
        None => 0,
    }
}

/// From `retried` retries made, the loop sends at most the retries left and
/// one more request.
proof fn lemma_requests_sent_from(max_retries: Option<usize>, retried: int, rate_limited: Seq<bool>)
    requires
        0 <= retried <= retry_budget(max_retries),
    ensures
        requests_sent(max_retries, retried, rate_limited) <= retry_budget(max_retries) - retried + 1,
    decreases rate_limited.len(),
{
    if rate_limited.len() > 0 && retries(max_retries, retried, rate_limited[0]) {
        lemma_requests_sent_from(max_retries, retried + 1, rate_limited.drop_first());
    }
}

/// A request is sent at most `max_retries + 1` times, and once when there is
/// no `max_retries`, whatever the responses are.
pub proof fn lemma_requests_sent_bounded(max_retries: Option<usize>, rate_limited: Seq<bool>)
    ensures
        requests_sent(max_retries, 0, rate_limited) <= retry_budget(max_retries) + 1,
{
    lemma_requests_sent_from(max_retries, 0, rate_limited);
}

/// What follows a response: a rate-limited request is sent again
/// while fewer than `max_retries` retries were made; anything else is
/// handed back.
pub fn retry_request_if_needed(
    max_retries: Option<usize>,
    retried: usize,
    outcome: &SlackResponseOutcome,
) -> (r: SlackRetryDecision)
    ensures
        match (max_retries, *outcome) {
            (Some(max), SlackResponseOutcome::RateLimited { retry_after_seconds, .. }) if retried < max =>
                r == SlackRetryDecision::Retry { retry_after_seconds, retried: (retried + 1) as usize },
            _ => r == SlackRetryDecision::Finish,
        },
        r matches SlackRetryDecision::Retry { retried: next, .. } ==> (max_retries is Some && next <= max_retries->0),
        (r is Retry) == retries(max_retries, retried as int, *outcome is RateLimited),
{
    match (max_retries, outcome) {
        (Some(max), SlackResponseOutcome::RateLimited { retry_after_seconds, .. }) => {
            if retried < max {
                SlackRetryDecision::Retry { retry_after_seconds: *retry_after_seconds, retried: retried + 1 }
            } else {
                SlackRetryDecision::Finish
            }
        },
        _ => SlackRetryDecision::Finish,
    }
}

} // verus!
