//! The headers, query parameters and content types of HTTP requests and
//! responses.

use vstd::prelude::*;
use vstd::string::*;

verus! {

/// What `url::form_urlencoded::parse` decodes from bytes: its name-value
/// pairs, in order.
pub uninterp spec fn form_urlencoded_pairs(input: Seq<u8>) -> Seq<(Seq<char>, Seq<char>)>;

/// What parsing a text as a `mime::Mime` gives: its type and subtype
/// (lower-cased by the parser), or `None` when the text is no media type.
pub uninterp spec fn mime_type_subtype(text: Seq<char>) -> Option<(Seq<char>, Seq<char>)>;

/// The standard base64 text, with padding, of bytes.
pub uninterp spec fn base64_standard(bytes: Seq<u8>) -> Seq<char>;

/// Name-value pairs as texts.
pub open spec fn pairs_view(pairs: Seq<(String, String)>) -> Seq<(Seq<char>, Seq<char>)> {
    pairs.map_values(|p: (String, String)| (p.0@, p.1@))
}

/// Calls `url::form_urlencoded::parse` and collects its pairs, as owned
/// strings; the contract claims they are the pairs that it decodes.
#[verifier::external_body]
fn parse_form_urlencoded(input: &[u8]) -> (r: Vec<(String, String)>)
    ensures
        pairs_view(r@) == form_urlencoded_pairs(input@),
{
    url::form_urlencoded::parse(input).into_owned().collect()
}

/// Calls `str::parse::<mime::Mime>` and hands out the type and subtype of
/// what it parsed; the contract claims they are the parser's.
#[verifier::external_body]
fn parse_mime(text: &str) -> (r: Option<(String, String)>)
    ensures
        match mime_type_subtype(text@) {
            None => r is None,
            Some(ts) => match r {
                Some(p) => p.0@ == ts.0 && p.1@ == ts.1,
                None => false,
            },
        },
{
    match text.parse::<mime::Mime>() {
        Ok(m) => Some((m.type_().as_str().to_string(), m.subtype().as_str().to_string())),
        Err(_) => None,
    }
}

/// Calls `base64::Engine::encode` with the `STANDARD` engine; the contract
/// claims the result is the standard base64 text of the bytes.
#[verifier::external_body]
fn base64_encode(bytes: &[u8]) -> (r: String)
    ensures
        r@ == base64_standard(bytes@),
{
    base64::Engine::encode(&base64::engine::general_purpose::STANDARD, bytes)
}

/// The value of the last pair named `key`: what a map built from the pairs
/// in order holds for it.
pub open spec fn last_value_of(pairs: Seq<(Seq<char>, Seq<char>)>, key: Seq<char>) -> Option<Seq<char>>
    decreases pairs.len(),
{
    if pairs.len() == 0 {
        None
    } else if pairs.last().0 == key {
        Some(pairs.last().1)
    } else {
        last_value_of(pairs.drop_last(), key)
    }
}

/// The text of a header value made of a prefix and a rest.
pub open spec fn auth_value(scheme: Seq<char>, credentials: Seq<char>) -> Seq<char> {
    scheme + " "@ + credentials
}

/// Whether a response's content counts as JSON: when it has no content type,
/// or one of type `application/json`; `None` when the content type does
/// not parse.
pub open spec fn content_is_json(content_type: Option<Seq<char>>) -> Option<bool> {
    match content_type {
        None => Some(true),
        Some(text) => match mime_type_subtype(text) {
            None => None,
            Some(ts) => Some(ts.0 == "application"@ && ts.1 == "json"@),
        },
    }
}

fn text_eq(a: &str, b: &str) -> (r: bool)
    ensures
        r == (a@ == b@),
{
    a.to_owned() == b.to_owned()
}

/// An HTTP response to send: its status, headers in order, and body.
#[derive(Debug, Clone, PartialEq)]
pub struct SlackHttpResponsePlan {
    pub status: u16,
    pub headers: Vec<(String, String)>,
    pub body: Option<String>,
}

/// The HTTP status `Found`, of redirects.
pub const HTTP_FOUND: u16 = 302;

/// Helpers for HTTP requests and responses.
pub struct HyperReqRespUtils;

impl HyperReqRespUtils {
    /// A redirect to `url`: a `302` with the URL as its `Location` and no
    /// body.
    pub fn hyper_redirect_to(url: &str) -> (r: SlackHttpResponsePlan)
        ensures
            r.status == HTTP_FOUND,
            pairs_view(r.headers@) == seq![("location"@, url@)],
            r.body is None,
    {
        let mut headers: Vec<(String, String)> = Vec::new();
        headers.push((String::from_str("location"), String::from_str(url)));
        proof {
            reveal_strlit("location");
            assert(pairs_view(headers@) =~= seq![("location"@, url@)]);
        }
        SlackHttpResponsePlan { status: HTTP_FOUND, headers, body: None }
    }

    /// The query parameters of a request, decoded as a form, in order; none
    /// without a query.
    pub fn parse_query_params(query: Option<&str>) -> (r: Vec<(String, String)>)
        ensures
            pairs_view(r@) == match query {
                Some(q) => form_urlencoded_pairs(q.spec_bytes()),
                None => Seq::empty(),
            },
    {
        match query {
            Some(q) => parse_form_urlencoded(q.as_bytes()),
            None => Vec::new(),
        }
    }

    /// The value of the parameter `key`: of its last pair when it has
    /// several, as a map built from the pairs holds it.
    pub fn query_param(params: &Vec<(String, String)>, key: &str) -> (r: Option<String>)
        ensures
            match last_value_of(pairs_view(params@), key@) {
                None => r is None,
                Some(v) => r is Some && r->0@ == v,
            },
    {
        let mut i: usize = params.len();
        assert(params@.take(i as int) =~= params@);
        while i > 0
            invariant
                i <= params.len(),
                last_value_of(pairs_view(params@), key@) == last_value_of(pairs_view(params@.take(i as int)), key@),
            decreases i,
        {
            let pair = &params[i - 1];
            assert(pairs_view(params@.take(i as int)).drop_last() =~= pairs_view(params@.take(i - 1)));
            assert(pairs_view(params@.take(i as int)).last() == (pair.0@, pair.1@));
            if text_eq(pair.0.as_str(), key) {
                return Some(pair.1.clone());
            }
            i = i - 1;
        }
        None
    }

    /// The value of the `Authorization` header of a request with this
    /// token: `Bearer <token>`; none without a token.
    pub fn setup_token_auth_header(token: Option<&str>) -> (r: Option<String>)
        ensures
            match token {
                None => r is None,
                Some(t) => r is Some && r->0@ == auth_value("Bearer"@, t@),
            },
    {
        match token {
            None => None,
            Some(t) => {
                let mut value = String::from_str("Bearer ");
                value.append(t);
                proof {
                    reveal_strlit("Bearer ");
                    reveal_strlit("Bearer");
                    reveal_strlit(" ");
                }
                Some(value)
            },
        }
    }

    /// The value of the `Authorization` header of a request with basic
    /// credentials: `Basic ` and the base64 text of `<username>:<password>`.
    pub fn setup_basic_auth_header(username: &str, password: &str) -> (r: String)
        ensures
            r@ == auth_value("Basic"@, base64_standard(vstd::utf8::encode_utf8(username@ + ":"@ + password@))),
    {
        let mut credentials = String::from_str(username);
        credentials.append(":");
        credentials.append(password);
        let encoded = base64_encode(credentials.as_str().as_bytes());
        let mut value = String::from_str("Basic ");
        value.append(encoded.as_str());
        proof {
            reveal_strlit("Basic ");
            reveal_strlit("Basic");
            reveal_strlit(" ");
            reveal_strlit(":");
        }
        value
    }

    /// Whether a response's content counts as JSON, by its `Content-Type`
    /// header: yes without one, else whether it is `application/json`;
    /// `None` when the header does not parse as a media type.
    pub fn http_response_content_type(content_type: Option<&str>) -> (r: Option<bool>)
        ensures
            r == content_is_json(match content_type {
                Some(t) => Some(t@),
                None => None,
            }),
    {
        match content_type {
            None => Some(true),
            Some(text) => match parse_mime(text) {
                None => None,
                Some(ts) => {
                    let is_application = text_eq(ts.0.as_str(), "application");
                    let is_json = text_eq(ts.1.as_str(), "json");
                    Some(is_application && is_json)
                },
            },
        }
    }
}

} // verus!
