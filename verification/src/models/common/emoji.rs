//! Custom emoji: their names, and references to them either by image URL or
//! as an alias of another emoji (`alias:<name>` in the API).

use vstd::prelude::*;
use vstd::string::*;

use crate::models::common::urls::{url_parse, url_parse_result, url_serialization, url_to_string};

verus! {

/// A Slack custom emoji name, without the leading and trailing `:`.
#[derive(Debug, Clone, PartialEq, Eq, Hash)]
pub struct SlackEmojiName(pub String);

impl SlackEmojiName {
    pub fn new(value: String) -> (r: Self)
        ensures
            r.0 == value,
    {
        SlackEmojiName(value)
    }

    pub fn value(&self) -> (r: &String)
        ensures
            *r == self.0,
    {
        &self.0
    }
}

/// A custom emoji: its image URL, or the name of the emoji it is an alias of.
#[derive(Debug, Clone, PartialEq, Eq, Hash)]
pub enum SlackEmojiRef {
    Url(url::Url),
    Alias(SlackEmojiName),
}

/// The prefix that marks an alias.
pub open spec fn alias_prefix() -> Seq<char> {
    seq!['a', 'l', 'i', 'a', 's', ':']
}

/// The text of a reference: the URL's serialization, or `alias:<name>`.
pub open spec fn emoji_ref_text(r: SlackEmojiRef) -> Seq<char> {
    match r {
        SlackEmojiRef::Url(u) => url_serialization(u),
        SlackEmojiRef::Alias(name) => alias_prefix() + name.0@,
    }
}

/// The aliased name in a text of the form `alias:<name>` where the name has
/// no `:` (the text splits at `:` into exactly two parts).
pub open spec fn emoji_alias_of(v: Seq<char>) -> Option<Seq<char>> {
    if v.len() >= 6 && v.take(6) == alias_prefix() && (forall|i: int| 6 <= i < v.len() ==> v[i] != ':') {
        Some(v.skip(6))
    } else {
        None
    }
}

/// Whether `v` begins with `alias:`.
fn has_alias_prefix(v: &str) -> (r: bool)
    ensures
        r == (v@.len() >= 6 && v@.take(6) == alias_prefix()),
{
    if v.unicode_len() < 6 {
        return false;
    }
    let r = v.get_char(0) == 'a' && v.get_char(1) == 'l' && v.get_char(2) == 'i' && v.get_char(3) == 'a'
        && v.get_char(4) == 's' && v.get_char(5) == ':';
    proof {
        if r {
            assert(v@.take(6) =~= alias_prefix());
        } else {
            if v@.take(6) == alias_prefix() {
                assert(v@.take(6)[0] == 'a');
                assert(v@.take(6)[1] == 'l');
                assert(v@.take(6)[2] == 'i');
                assert(v@.take(6)[3] == 'a');
                assert(v@.take(6)[4] == 's');
                assert(v@.take(6)[5] == ':');
            }
        }
    }
    r
}

impl SlackEmojiRef {
    /// The text that the API carries: the URL, or `alias:<name>`.
    pub fn to_slack_str(&self) -> (r: String)
        ensures
            r@ == emoji_ref_text(*self),
    {
        match self {
            SlackEmojiRef::Url(url) => url_to_string(url),
            SlackEmojiRef::Alias(alias) => {
                let mut text = String::from_str("alias:");
                text.append(alias.0.as_str());
                proof {
                    reveal_strlit("alias:");
                    assert(text@ =~= alias_prefix() + alias.0@);
                }
                text
            },
        }
    }

    /// The reference that an API text stands for: an alias when the text is
    /// `alias:<name>` with no further `:`, otherwise the text parsed as a
    /// URL (with the URL parser's error when it is none).
    pub fn from_slack_str(v: &str) -> (r: Result<SlackEmojiRef, url::ParseError>)
        ensures
            match emoji_alias_of(v@) {
                Some(name) => r matches Ok(SlackEmojiRef::Alias(alias)) && alias.0@ == name,
                None => match url_parse_result(v@) {
                    Some(serialization) => r matches Ok(SlackEmojiRef::Url(u))
                        && url_serialization(u) == serialization,
                    None => r is Err,
                },
            },
    {
        if has_alias_prefix(v) {
            let n = v.unicode_len();
            let mut i: usize = 6;
            let mut single_colon = true;
            while i < n
                invariant
                    n == v@.len(),
                    6 <= i <= n,
                    single_colon == (forall|j: int| 6 <= j < i ==> v@[j] != ':'),
                decreases n - i,
            {
                if v.get_char(i) == ':' {
                    single_colon = false;
                }
                i = i + 1;
            }
            if single_colon {
                let name = String::from_str(v.substring_char(6, n));
                proof {
                    assert(v@.subrange(6, n as int) =~= v@.skip(6));
                }
                return Ok(SlackEmojiRef::Alias(SlackEmojiName(name)));
            }
        }
        match url_parse(v) {
            Ok(url) => Ok(SlackEmojiRef::Url(url)),
            Err(e) => Err(e),
        }
    }
}

/// An alias whose name has no `:` reads back as the same alias.
pub proof fn lemma_alias_text_round_trip(name: SlackEmojiName)
    requires
        forall|i: int| 0 <= i < name.0@.len() ==> name.0@[i] != ':',
    ensures
        emoji_alias_of(emoji_ref_text(SlackEmojiRef::Alias(name))) == Some(name.0@),
{
    let text = alias_prefix() + name.0@;
    assert(text.take(6) =~= alias_prefix());
    assert(text.skip(6) =~= name.0@);
    assert forall|i: int| 6 <= i < text.len() implies text[i] != ':' by {
        assert(text[i] == name.0@[i - 6]);
    }
}

/// The text of an alias read from the API is the text it was read from.
pub proof fn lemma_alias_read_round_trip(v: Seq<char>, name: SlackEmojiName)
    requires
        emoji_alias_of(v) == Some(name.0@),
    ensures
        emoji_ref_text(SlackEmojiRef::Alias(name)) == v,
{
    assert(alias_prefix() + v.skip(6) =~= v) by {
        assert(v.take(6) == alias_prefix());
        assert forall|i: int| 0 <= i < v.len() implies (alias_prefix() + v.skip(6))[i] == v[i] by {
            if i < 6 {
                assert(v.take(6)[i] == v[i]);
            }
        }
    }
}

} // verus!
