use slack_morphism::hyper_tokio::connector::{
    http_get_uri, http_get_with_client_secret, http_post_uri, logged_uri, response_outcome, response_reads_envelope, SlackEnvelopeMessage,
    retry_after_seconds, retry_request_if_needed, SlackHttpMethod, SlackResponseOutcome, SlackRetryDecision,
};
use slack_morphism::hyper_tokio::hyper_reqresp::HyperReqRespUtils;
use slack_morphism::hyper_tokio::listener::{
    interaction_http_response, interaction_payload, interaction_route, oauth_callback_action, oauth_exchange_redirect, oauth_route,
    signature_headers, SlackOAuthCallbackAction, SlackOAuthRoute, ABSENT_PAYLOAD_MESSAGE,
};
use slack_morphism::hyper_tokio::socket_mode::{new_client_ids, restart_index, start_delays};

fn envelope(error: Option<&str>, errors: &[&str], warnings: &[&str]) -> SlackEnvelopeMessage {
    let strings = |v: &[&str]| if v.is_empty() { None } else { Some(v.iter().map(|s| s.to_string()).collect()) };
    SlackEnvelopeMessage { error: error.map(|e| e.to_string()), errors: strings(errors), warnings: strings(warnings) }
}

fn pairs(v: &[(&str, &str)]) -> Vec<(String, String)> {
    v.iter().map(|(k, v)| (k.to_string(), v.to_string())).collect()
}

#[test]
fn query_params_are_decoded_in_order() {
    assert_eq!(
        HyperReqRespUtils::parse_query_params(Some("code=a%20b&state=x+y&code=c")),
        pairs(&[("code", "a b"), ("state", "x y"), ("code", "c")])
    );
    assert_eq!(HyperReqRespUtils::parse_query_params(None), vec![]);
}

#[test]
fn the_last_value_of_a_parameter_counts() {
    let params = pairs(&[("code", "a"), ("state", "s"), ("code", "c")]);
    assert_eq!(HyperReqRespUtils::query_param(&params, "code"), Some("c".to_string()));
    assert_eq!(HyperReqRespUtils::query_param(&params, "state"), Some("s".to_string()));
    assert_eq!(HyperReqRespUtils::query_param(&params, "error"), None);
}

#[test]
fn authorization_headers() {
    assert_eq!(HyperReqRespUtils::setup_token_auth_header(Some("xoxb-1")), Some("Bearer xoxb-1".to_string()));
    assert_eq!(HyperReqRespUtils::setup_token_auth_header(None), None);
    assert_eq!(
        HyperReqRespUtils::setup_basic_auth_header("Aladdin", "open sesame"),
        "Basic QWxhZGRpbjpvcGVuIHNlc2FtZQ=="
    );
}

#[test]
fn json_content_types() {
    assert_eq!(HyperReqRespUtils::http_response_content_type(None), Some(true));
    assert_eq!(HyperReqRespUtils::http_response_content_type(Some("application/json")), Some(true));
    assert_eq!(
        HyperReqRespUtils::http_response_content_type(Some("Application/JSON; charset=utf-8")),
        Some(true)
    );
    assert_eq!(HyperReqRespUtils::http_response_content_type(Some("text/html")), Some(false));
    assert_eq!(HyperReqRespUtils::http_response_content_type(Some("application/json+x")), Some(true));
    assert_eq!(HyperReqRespUtils::http_response_content_type(Some("application/vnd.api+json")), Some(false));
    assert_eq!(HyperReqRespUtils::http_response_content_type(Some("not a mime")), None);
}

#[test]
fn requests_carry_their_headers() {
    let get = http_get_uri("https://slack.com/api/auth.test", Some("xoxb-1"));
    assert_eq!(get.method, SlackHttpMethod::Get);
    assert_eq!(get.uri, "https://slack.com/api/auth.test");
    assert_eq!(get.headers, pairs(&[("accept-charset", "utf-8"), ("authorization", "Bearer xoxb-1")]));
    assert_eq!(get.body, None);

    let anonymous = http_get_uri("https://slack.com/api/api.test", None);
    assert_eq!(anonymous.headers, pairs(&[("accept-charset", "utf-8")]));

    let oauth = http_get_with_client_secret("https://slack.com/api/oauth.v2.access", "id", "secret");
    assert_eq!(oauth.headers, pairs(&[("accept-charset", "utf-8"), ("authorization", "Basic aWQ6c2VjcmV0")]));

    let post = http_post_uri("https://slack.com/api/chat.postMessage", "{}".to_string(), Some("t"));
    assert_eq!(post.method, SlackHttpMethod::Post);
    assert_eq!(
        post.headers,
        pairs(&[
            ("accept-charset", "utf-8"),
            ("content-type", "application/json; charset=utf-8"),
            ("authorization", "Bearer t")
        ])
    );
    assert_eq!(post.body, Some("{}".to_string()));
}

#[test]
fn responses_by_status() {
    assert!(response_reads_envelope(200, true));
    assert!(response_reads_envelope(429, true));
    assert!(!response_reads_envelope(200, false));
    assert!(!response_reads_envelope(500, true));

    assert_eq!(response_outcome(200, true, SlackEnvelopeMessage::new(), None), SlackResponseOutcome::DecodeBody);
    assert_eq!(
        response_outcome(200, true, envelope(Some("channel_not_found"), &["e1"], &["w1"]), None),
        SlackResponseOutcome::ApiError {
            code: "channel_not_found".to_string(),
            errors: Some(vec!["e1".to_string()]),
            warnings: Some(vec!["w1".to_string()])
        }
    );
    assert_eq!(response_outcome(200, false, SlackEnvelopeMessage::new(), None), SlackResponseOutcome::DecodeEmptyObject);
    assert_eq!(response_outcome(204, true, SlackEnvelopeMessage::new(), None), SlackResponseOutcome::DecodeEmptyObject);
    assert_eq!(
        response_outcome(429, true, envelope(Some("ratelimited"), &["e"], &["w"]), Some("30")),
        SlackResponseOutcome::RateLimited {
            retry_after_seconds: Some(30),
            code: Some("ratelimited".to_string()),
            warnings: Some(vec!["w".to_string()])
        }
    );
    assert_eq!(
        response_outcome(429, false, envelope(Some("ignored"), &[], &["w"]), Some("soon")),
        SlackResponseOutcome::RateLimited { retry_after_seconds: None, code: None, warnings: None }
    );
    assert_eq!(response_outcome(503, true, SlackEnvelopeMessage::new(), None), SlackResponseOutcome::HttpError { status: 503 });
}

#[test]
fn retry_after_headers() {
    assert_eq!(retry_after_seconds(Some("120")), Some(120));
    assert_eq!(retry_after_seconds(Some("+7")), Some(7));
    assert_eq!(retry_after_seconds(Some("-1")), None);
    assert_eq!(retry_after_seconds(Some("18446744073709551616")), None);
    assert_eq!(retry_after_seconds(None), None);
}

#[test]
fn rate_limited_requests_are_retried_up_to_the_maximum() {
    let limited = SlackResponseOutcome::RateLimited { retry_after_seconds: Some(3), code: None, warnings: None };
    assert_eq!(
        retry_request_if_needed(Some(2), 0, &limited),
        SlackRetryDecision::Retry { retry_after_seconds: Some(3), retried: 1 }
    );
    assert_eq!(
        retry_request_if_needed(Some(2), 1, &limited),
        SlackRetryDecision::Retry { retry_after_seconds: Some(3), retried: 2 }
    );
    assert_eq!(retry_request_if_needed(Some(2), 2, &limited), SlackRetryDecision::Finish);
    assert_eq!(retry_request_if_needed(None, 0, &limited), SlackRetryDecision::Finish);
    assert_eq!(
        retry_request_if_needed(Some(2), 0, &SlackResponseOutcome::HttpError { status: 500 }),
        SlackRetryDecision::Finish
    );
}

#[test]
fn oauth_routes() {
    assert_eq!(oauth_route(true, "/auth/install", "/auth/install", "/auth/callback"), SlackOAuthRoute::Install);
    assert_eq!(oauth_route(true, "/auth/callback", "/auth/install", "/auth/callback"), SlackOAuthRoute::Callback);
    assert_eq!(oauth_route(false, "/auth/install", "/auth/install", "/auth/callback"), SlackOAuthRoute::Chain);
    assert_eq!(oauth_route(true, "/other", "/auth/install", "/auth/callback"), SlackOAuthRoute::Chain);
}

#[test]
fn oauth_callbacks() {
    assert_eq!(
        oauth_callback_action(&pairs(&[("code", "c1")]), Some("code=c1"), "https://e/err"),
        SlackOAuthCallbackAction::ExchangeCode { code: "c1".to_string() }
    );
    assert_eq!(
        oauth_callback_action(&pairs(&[("error", "access_denied")]), Some("error=access_denied"), "https://e/err"),
        SlackOAuthCallbackAction::Cancelled {
            reason: "access_denied".to_string(),
            redirect_url: "https://e/err?error=access_denied".to_string()
        }
    );
    assert_eq!(
        oauth_callback_action(&pairs(&[("code", "c"), ("error", "e")]), Some("code=c&error=e"), "https://e/err"),
        SlackOAuthCallbackAction::Unknown { redirect_url: "https://e/err".to_string() }
    );
    assert_eq!(
        oauth_callback_action(&vec![], None, "https://e/err"),
        SlackOAuthCallbackAction::Unknown { redirect_url: "https://e/err".to_string() }
    );
    assert_eq!(oauth_exchange_redirect(true, "https://e/ok", "https://e/err"), "https://e/ok");
    assert_eq!(oauth_exchange_redirect(false, "https://e/ok", "https://e/err"), "https://e/err");
}

#[test]
fn interaction_requests() {
    assert!(interaction_route(true, "/events", "/events"));
    assert!(!interaction_route(false, "/events", "/events"));
    assert!(!interaction_route(true, "/push", "/events"));
    let body = HyperReqRespUtils::parse_query_params(Some("payload=%7B%22type%22%3A1%7D"));
    assert_eq!(interaction_payload(&body), Some("{\"type\":1}".to_string()));
    assert_eq!(interaction_payload(&vec![]), None);
    assert_eq!(ABSENT_PAYLOAD_MESSAGE, "Absent payload in the request from Slack");
    assert_eq!(signature_headers(Some("v0=ab"), Some("1")), Some(("v0=ab".to_string(), "1".to_string())));
    assert_eq!(signature_headers(Some("v0=ab"), None), None);
}

#[test]
fn socket_mode_clients() {
    assert_eq!(new_client_ids(2, 3), vec![(2, 0), (3, 1), (4, 2)]);
    assert_eq!(new_client_ids(0, 0), vec![]);
    assert_eq!(start_delays(&vec![5, 5, 5]), vec![0, 5, 10]);
    assert_eq!(start_delays(&vec![7, 3, 2]), vec![0, 3, 4]);
    assert_eq!(start_delays(&Vec::new()), Vec::<u64>::new());
}

#[test]
fn responses_to_send() {
    let redirect = HyperReqRespUtils::hyper_redirect_to("https://e/ok");
    assert_eq!(redirect.status, 302);
    assert_eq!(redirect.headers, pairs(&[("location", "https://e/ok")]));
    assert_eq!(redirect.body, None);

    let answer = interaction_http_response(Ok(Some("{\"response_action\":\"clear\"}".to_string())));
    assert_eq!(answer.status, 200);
    assert_eq!(answer.headers, pairs(&[("content-type", "application/json; charset=utf-8")]));
    assert_eq!(answer.body, Some("{\"response_action\":\"clear\"}".to_string()));
    let empty = interaction_http_response(Ok(None));
    assert_eq!((empty.status, empty.headers.len(), empty.body), (200, 0, None));
    let failed = interaction_http_response(Err(500));
    assert_eq!((failed.status, failed.headers.len(), failed.body), (500, 0, None));
}

#[test]
fn clients_to_restart_are_found_by_id() {
    let active = vec![(0, 0), (1, 1), (1, 1)];
    assert_eq!(restart_index(&active, (1, 1)), Some(1));
    assert_eq!(restart_index(&active, (0, 0)), Some(0));
    assert_eq!(restart_index(&active, (2, 0)), None);
    assert_eq!(restart_index(&vec![], (0, 0)), None);
}

#[test]
fn sensitive_uris_are_redacted_in_traces() {
    assert_eq!(
        logged_uri("https://slack.com/api/x?token=s", Some("https"), Some("slack.com"), true),
        "https://slack.com/-redacted-"
    );
    assert_eq!(logged_uri("/relative", None, None, true), "unknown-scheme://unknown-host/-redacted-");
    assert_eq!(logged_uri("https://slack.com/api/x", Some("https"), Some("slack.com"), false), "https://slack.com/api/x");
}
