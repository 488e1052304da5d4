//! URLs: `url::Url` values carried through the models, and the URL types of
//! the models.

use vstd::prelude::*;

verus! {

/// `url::Url`, carried as it is.
#[verifier::external_type_specification]
#[verifier::external_body]
pub struct ExUrl(url::Url);

/// `url::ParseError`, carried as it is.
#[verifier::external_type_specification]
#[verifier::external_body]
pub struct ExUrlParseError(url::ParseError);

/// `url::Url`'s `Clone` (derived): a URL equal to the one cloned.
pub assume_specification [<url::Url as Clone>::clone](u: &url::Url) -> (r: url::Url)
    ensures
        r == *u,
;

/// The serialization that a `url::Url` holds (`Url::as_str`).
pub uninterp spec fn url_serialization(u: url::Url) -> Seq<char>;

/// What `url::Url::parse` gives for a text: the serialization of the URL
/// when the text parses, `None` when it does not.
pub uninterp spec fn url_parse_result(text: Seq<char>) -> Option<Seq<char>>;

/// `url::Url::parse(text)`: a URL whose serialization is the one that the
/// parser gives, or the parser's error.
#[verifier::external_body]
pub(crate) fn url_parse(text: &str) -> (r: Result<url::Url, url::ParseError>)
    ensures
        match url_parse_result(text@) {
            Some(serialization) => r matches Ok(u) && url_serialization(u) == serialization,
            None => r is Err,
        },
{
    url::Url::parse(text)
}

/// `url.to_string()`: the serialization of the URL.
#[verifier::external_body]
pub(crate) fn url_to_string(url: &url::Url) -> (r: String)
    ensures
        r@ == url_serialization(*url),
{
    url.to_string()
}

/// A URL to respond to an interaction.
#[derive(Debug, Clone, PartialEq, Eq, Hash)]
pub struct SlackResponseUrl(pub url::Url);

impl SlackResponseUrl {
    pub fn new(value: url::Url) -> (r: Self)
        ensures
            r.0 == value,
    {
        SlackResponseUrl(value)
    }

    pub fn value(&self) -> (r: &url::Url)
        ensures
            *r == self.0,
    {
        &self.0
    }
}

/// A URL of a workspace.
#[derive(Debug, Clone, PartialEq, Eq, Hash)]
pub struct SlackTeamUrl(pub url::Url);

impl SlackTeamUrl {
    pub fn new(value: url::Url) -> (r: Self)
        ensures
            r.0 == value,
    {
        SlackTeamUrl(value)
    }

    pub fn value(&self) -> (r: &url::Url)
        ensures
            *r == self.0,
    {
        &self.0
    }
}

/// The text of the Socket Mode URL that asks Slack to exercise reconnects.
pub open spec fn debug_url_text(u: url::Url) -> Seq<char> {
    url_serialization(u) + "&debug_reconnects=true"@
}

/// The URL of a Socket Mode connection.
#[derive(Debug, Clone, PartialEq, Eq, Hash)]
pub struct SlackWebSocketsUrl(pub url::Url);

impl SlackWebSocketsUrl {
    pub fn new(value: url::Url) -> (r: Self)
        ensures
            r.0 == value,
    {
        SlackWebSocketsUrl(value)
    }

    pub fn value(&self) -> (r: &url::Url)
        ensures
            *r == self.0,
    {
        &self.0
    }

    /// The URL with `&debug_reconnects=true` appended, which a URL parser
    /// always accepts for a Socket Mode URL.
    pub fn to_debug_url(&self) -> (r: Self)
        requires
            url_parse_result(debug_url_text(self.0)) is Some,
        ensures
            Some(url_serialization(r.0)) == url_parse_result(debug_url_text(self.0)),
    {
        let text = url_to_string(&self.0).concat("&debug_reconnects=true");
        match url_parse(text.as_str()) {
            Ok(u) => SlackWebSocketsUrl(u),
            Err(_) => {
                proof {
                    assert(false);
                }
                self.clone()
            },
        }
    }

    /// [`SlackWebSocketsUrl::to_debug_url`] when the URL parser accepts the
    /// debug text, `None` when it does not.
    pub fn try_to_debug_url(&self) -> (r: Option<Self>)
        ensures
            match url_parse_result(debug_url_text(self.0)) {
                Some(serialization) => r matches Some(u) && url_serialization(u.0) == serialization,
                None => r is None,
            },
    {
        let text = url_to_string(&self.0).concat("&debug_reconnects=true");
        match url_parse(text.as_str()) {
            Ok(_) => Some(self.to_debug_url()),
            Err(_) => None,
        }
    }
}

/// A URL as Slack sends it in rich text, which may not be a valid URL; it
/// is kept as text and converted on request.
#[derive(Debug, Clone, PartialEq, Eq, Hash)]
pub struct SlackRelaxedUrl(pub String);

impl SlackRelaxedUrl {
    pub fn new(value: String) -> (r: Self)
        ensures
            r.0 == value,
    {
        SlackRelaxedUrl(value)
    }

    pub fn value(&self) -> (r: &String)
        ensures
            *r == self.0,
    {
        &self.0
    }

    /// The text parsed as a URL.
    pub fn to_url(&self) -> (r: Result<url::Url, url::ParseError>)
        ensures
            match url_parse_result(self.0@) {
                Some(serialization) => r matches Ok(u) && url_serialization(u) == serialization,
                None => r is Err,
            },
    {
        url_parse(self.0.as_str())
    }

    /// The text of a URL (`From<Url>`).
    pub fn from_url(url: &url::Url) -> (r: Self)
        ensures
            r.0@ == url_serialization(*url),
    {
        SlackRelaxedUrl(url_to_string(url))
    }
}

} // verus!
