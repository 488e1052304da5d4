//! How the listeners route the requests that Slack sends, and what they
//! decide from them: the OAuth install flow and interaction events.

use vstd::prelude::*;
use vstd::string::*;

use crate::hyper_tokio::connector::HTTP_OK;
use crate::hyper_tokio::hyper_reqresp::{last_value_of, pairs_view, HyperReqRespUtils, SlackHttpResponsePlan};

verus! {

/// Where the OAuth listener sends a request.
#[derive(Debug, Clone, Copy, PartialEq, Eq)]
pub enum SlackOAuthRoute {
    /// Redirect to Slack's authorization page.
    Install,
    /// Handle Slack's redirect back with a code or an error.
    Callback,
    /// Not an OAuth request: hand it to the next service.
    Chain,
}

/// Where the OAuth listener sends a request: a `GET` of the install path is
/// an install, a `GET` of the callback path a callback, anything else goes on.
pub fn oauth_route(is_get: bool, path: &str, install_path: &str, redirect_callback_path: &str) -> (r: SlackOAuthRoute)
    ensures
        r == (if is_get && path@ == install_path@ {
            SlackOAuthRoute::Install
        } else if is_get && path@ == redirect_callback_path@ {
            SlackOAuthRoute::Callback
        } else {
            SlackOAuthRoute::Chain
        }),
{
    if is_get && path.to_owned() == install_path.to_owned() {
        SlackOAuthRoute::Install
    } else if is_get && path.to_owned() == redirect_callback_path.to_owned() {
        SlackOAuthRoute::Callback
    } else {
        SlackOAuthRoute::Chain
    }
}

/// What the OAuth callback does with Slack's redirect.
#[derive(Debug, Clone, PartialEq, Eq)]
pub enum SlackOAuthCallbackAction {
    /// Exchange the code for tokens, then redirect by how that went.
    ExchangeCode { code: String },
    /// The user cancelled: report the reason and redirect to the URL.
    Cancelled { reason: String, redirect_url: String },
    /// Neither a code nor an error alone: report it and redirect to the URL.
    Unknown { redirect_url: String },
}

/// The error redirect of a cancelled install: the error URL, with the
/// query of Slack's redirect when there is one.
pub open spec fn cancelled_redirect(error_url: Seq<char>, query: Option<Seq<char>>) -> Seq<char> {
    match query {
        None => error_url,
        Some(q) => error_url + "?"@ + q,
    }
}

/// The error redirect of a cancelled install keeps the whole query of
/// Slack's redirect, whatever it holds: it is the error URL, a `?`, then
/// the query, character for character; with no query it is the error URL.
pub proof fn lemma_cancelled_redirect_keeps_the_query(error_url: Seq<char>, query: Seq<char>)
    ensures
        cancelled_redirect(error_url, Some(query)).len() == error_url.len() + 1 + query.len(),
        cancelled_redirect(error_url, Some(query)).subrange(0, error_url.len() as int) == error_url,
        cancelled_redirect(error_url, Some(query))[error_url.len() as int] == '?',
        cancelled_redirect(error_url, Some(query)).skip(error_url.len() as int + 1) == query,
        cancelled_redirect(error_url, None) == error_url,
{
    reveal_strlit("?");
    let r = cancelled_redirect(error_url, Some(query));
    assert(r.subrange(0, error_url.len() as int) =~= error_url);
    assert(r.skip(error_url.len() as int + 1) =~= query);
}

/// What the OAuth callback does, by the `code` and `error` parameters of
/// Slack's redirect: a code alone is exchanged, an error alone is a
/// cancellation, anything else is unknown.
pub fn oauth_callback_action(
    params: &Vec<(String, String)>,
    query: Option<&str>,
    redirect_error_redirect_url: &str,
) -> (r: SlackOAuthCallbackAction)
    ensures
        match (last_value_of(pairs_view(params@), "code"@), last_value_of(pairs_view(params@), "error"@)) {
            (Some(code), None) => r matches SlackOAuthCallbackAction::ExchangeCode { code: c } && c@ == code,
            (None, Some(reason)) => r matches SlackOAuthCallbackAction::Cancelled { reason: e, redirect_url: u }
                && e@ == reason
                && u@ == cancelled_redirect(redirect_error_redirect_url@, match query {
                    Some(q) => Some(q@),
                    None => None,
                }),
            _ => r matches SlackOAuthCallbackAction::Unknown { redirect_url: u } && u@ == redirect_error_redirect_url@,
        },
{
    proof {
        reveal_strlit("code");
        reveal_strlit("error");
        reveal_strlit("?");
    }
    let code = HyperReqRespUtils::query_param(params, "code");
    let error = HyperReqRespUtils::query_param(params, "error");
    match (code, error) {
        (Some(code), None) => SlackOAuthCallbackAction::ExchangeCode { code },
        (None, Some(reason)) => {
            let mut redirect_url = String::from_str(redirect_error_redirect_url);
            match query {
                Some(q) => {
                    redirect_url.append("?");
                    redirect_url.append(q);
                },
                None => {},
            }
            SlackOAuthCallbackAction::Cancelled { reason, redirect_url }
        },
        _ => SlackOAuthCallbackAction::Unknown { redirect_url: String::from_str(redirect_error_redirect_url) },
    }
}

/// Where the OAuth callback redirects after the exchange of a code: to the
/// installed URL when it succeeded, else to the error URL.
pub fn oauth_exchange_redirect(exchanged: bool, redirect_installed_url: &str, redirect_error_redirect_url: &str) -> (r: String)
    ensures
        r@ == (if exchanged { redirect_installed_url@ } else { redirect_error_redirect_url@ }),
{
    if exchanged {
        String::from_str(redirect_installed_url)
    } else {
        String::from_str(redirect_error_redirect_url)
    }
}

/// Whether the interaction listener handles a request: a `POST` of its
/// events path.
pub fn interaction_route(is_post: bool, path: &str, events_path: &str) -> (r: bool)
    ensures
        r == (is_post && path@ == events_path@),
{
    is_post && path.to_owned() == events_path.to_owned()
}

/// The message of the error when an interaction request has no payload.
pub const ABSENT_PAYLOAD_MESSAGE: &'static str = "Absent payload in the request from Slack";

/// The `payload` of an interaction request, from the parameters of its form
/// body; `None` when it has none.
pub fn interaction_payload(body_params: &Vec<(String, String)>) -> (r: Option<String>)
    ensures
        match last_value_of(pairs_view(body_params@), "payload"@) {
            None => r is None,
            Some(p) => r is Some && r->0@ == p,
        },
{
    proof {
        reveal_strlit("payload");
    }
    HyperReqRespUtils::query_param(body_params, "payload")
}

/// The answer to an interaction request, by what its handler gave: a `200`
/// with the JSON of the handler's response when it has one (a view
/// submission or block suggestion answer) and no body when it has none; the
/// status that the error handler chose, with no body, when the handler or
/// the payload failed.
pub fn interaction_http_response(result: Result<Option<String>, u16>) -> (r: SlackHttpResponsePlan)
    ensures
        match result {
            Ok(Some(json)) => r.status == HTTP_OK
                && pairs_view(r.headers@) == seq![("content-type"@, "application/json; charset=utf-8"@)]
                && r.body == Some(json),
            Ok(None) => r.status == HTTP_OK && r.headers@.len() == 0 && r.body is None,
            Err(status) => r.status == status && r.headers@.len() == 0 && r.body is None,
        },
{
    match result {
        Ok(Some(json)) => {
            let mut headers: Vec<(String, String)> = Vec::new();
            headers.push((String::from_str("content-type"), String::from_str("application/json; charset=utf-8")));
            proof {
                reveal_strlit("content-type");
                reveal_strlit("application/json; charset=utf-8");
                assert(pairs_view(headers@) =~= seq![("content-type"@, "application/json; charset=utf-8"@)]);
            }
            SlackHttpResponsePlan { status: HTTP_OK, headers, body: Some(json) }
        },
        Ok(None) => SlackHttpResponsePlan { status: HTTP_OK, headers: Vec::new(), body: None },
        Err(status) => SlackHttpResponsePlan { status, headers: Vec::new(), body: None },
    }
}

/// The signature headers of a signed request: its hash and its timestamp;
/// `None` when either is absent, which the listener reports as an absent
/// signature.
pub fn signature_headers(hash: Option<&str>, timestamp: Option<&str>) -> (r: Option<(String, String)>)
    ensures
        match (hash, timestamp) {
            (Some(h), Some(t)) => match r {
                Some(p) => p.0@ == h@ && p.1@ == t@,
                None => false,
            },
            _ => r is None,
        },
{
    match (hash, timestamp) {
        (Some(h), Some(t)) => Some((String::from_str(h), String::from_str(t))),
        _ => None,
    }
}

} // verus!
