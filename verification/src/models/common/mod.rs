//! The common models: identifiers, timestamps and the types shared by the
//! other models.

pub mod datetime;
pub mod emoji;
pub mod icon;
pub mod urls;
pub mod assistant;
pub mod bot;
pub mod channel;
pub mod pin;
pub mod reaction;
pub mod star;
pub mod team;
pub mod user;

use vstd::prelude::*;
use vstd::string::*;

use vstd::utf8::encode_utf8;

use crate::decimal::{append_u64, nat_to_decimal, push_char, parse_i64, parse_u32, std_parse_int};
use crate::models::common::datetime::{
    date_time_at, from_unix_seconds_micros, instant_of, instant_of_seconds_micros, now, parse_civil_date,
    jiff_ymd_date, SlackCivilDate, SlackUtcDateTime,
};

verus! {

/// Whether `i` is the position of the first `.` in `s`.
pub open spec fn is_first_dot(s: Seq<char>, i: int) -> bool {
    &&& 0 <= i < s.len()
    &&& s[i] == '.'
    &&& forall|j: int| 0 <= j < i ==> s[j] != '.'
}

/// A timestamp text split at its first `.`: the seconds, and the fraction
/// when there is a `.`.
pub open spec fn ts_split(s: Seq<char>) -> (Seq<char>, Option<Seq<char>>) {
    if exists|i: int| is_first_dot(s, i) {
        let i = choose|i: int| is_first_dot(s, i);
        (s.take(i), Some(s.skip(i + 1)))
    } else {
        (s, None)
    }
}

/// The fraction of a timestamp as six digits of microseconds: its first six
/// characters, padded with `0` on the right.
pub open spec fn micros_digits(fraction: Seq<char>) -> Seq<char> {
    let kept = if fraction.len() > 6 { fraction.take(6) } else { fraction };
    kept + Seq::new((6 - kept.len()) as nat, |_i: int| '0')
}

/// The instant, in nanoseconds since the epoch, of a Slack timestamp text
/// `<seconds>.<microseconds>`; `None` when a part does not parse or the
/// instant is out of range.
pub open spec fn slack_ts_instant(s: Seq<char>) -> Option<int> {
    let (seconds_text, fraction) = ts_split(s);
    match std_parse_int(seconds_text, true, i64::MIN as int, i64::MAX as int) {
        None => None,
        Some(secs) => match fraction {
            None => instant_of_seconds_micros(secs, 0),
            Some(f) => match std_parse_int(micros_digits(f), false, 0, u32::MAX as int) {
                None => None,
                Some(micros) => instant_of_seconds_micros(secs, micros),
            },
        },
    }
}

/// A Slack message timestamp, `<seconds>.<microseconds>`.
#[derive(Debug, Clone, PartialEq, Eq, Hash)]
pub struct SlackTs(pub String);

impl SlackTs {
    pub fn new(value: String) -> (r: Self)
        ensures
            r.0 == value,
    {
        SlackTs(value)
    }

    pub fn value(&self) -> (r: &String)
        ensures
            *r == self.0,
    {
        &self.0
    }

    /// Converts a Slack timestamp (`<seconds>.<microseconds>`) to an instant.
    ///
    /// The fractional part is optional and is interpreted as microseconds,
    /// padded or truncated to six digits.
    pub fn to_date_time_opt(&self) -> (r: Option<SlackUtcDateTime>)
        ensures
            instant_of(r) == slack_ts_instant(self.0@),
            r == date_time_at(slack_ts_instant(self.0@)),
    {
        let value = self.0.as_str();
        let n = value.unicode_len();
        let mut dot: usize = 0;
        while dot < n
            invariant
                n == value@.len(),
                dot <= n,
                forall|j: int| 0 <= j < dot ==> value@[j] != '.',
            ensures
                dot <= n,
                forall|j: int| 0 <= j < dot ==> value@[j] != '.',
                dot < n ==> value@[dot as int] == '.',
            decreases n - dot,
        {
            if value.get_char(dot) == '.' {
                break;
            }
            dot = dot + 1;
        }
        let seconds_part = value.substring_char(0, dot);
        let secs = match parse_i64(seconds_part) {
            Some(secs) => secs,
            None => {
                proof {
                    self.lemma_split(dot as int);
                }
                return None;
            },
        };
        if dot == n {
            proof {
                self.lemma_split(dot as int);
            }
            return from_unix_seconds_micros(secs, 0);
        }
        let fraction = value.substring_char(dot + 1, n);
        let fraction_len = fraction.unicode_len();
        let kept: usize = if fraction_len > 6 { 6 } else { fraction_len };
        let mut digits = String::new();
        let mut i: usize = 0;
        while i < kept
            invariant
                kept <= fraction@.len(),
                i <= kept,
                digits@ == fraction@.take(i as int),
            decreases kept - i,
        {
            let c = fraction.get_char(i);
            push_char(&mut digits, c);
            proof {
                assert(digits@ =~= fraction@.take(i + 1));
            }
            i = i + 1;
        }
        let ghost taken = digits@;
        while i < 6
            invariant
                kept <= i <= 6,
                digits@ == taken + Seq::new((i - kept) as nat, |_i: int| '0'),
            decreases 6 - i,
        {
            push_char(&mut digits, '0');
            proof {
                assert(digits@ =~= taken + Seq::new((i + 1 - kept) as nat, |_i: int| '0'));
            }
            i = i + 1;
        }
        proof {
            self.lemma_split(dot as int);
            if fraction@.len() > 6 {
                assert(taken =~= fraction@.take(6));
            } else {
                assert(taken =~= fraction@);
            }
            assert(digits@ =~= micros_digits(fraction@));
        }
        match parse_u32(digits.as_str()) {
            Some(micros) => from_unix_seconds_micros(secs, micros),
            None => None,
        }
    }

    /// Where the first `.` is, or that there is none.
    proof fn lemma_split(&self, dot: int)
        requires
            0 <= dot <= self.0@.len(),
            forall|j: int| 0 <= j < dot ==> self.0@[j] != '.',
            dot < self.0@.len() ==> self.0@[dot] == '.',
        ensures
            dot < self.0@.len() ==> ts_split(self.0@) == (self.0@.subrange(0, dot), Some(self.0@.subrange(dot + 1, self.0@.len() as int))),
            dot == self.0@.len() ==> ts_split(self.0@) == (self.0@.subrange(0, dot), None::<Seq<char>>),
    {
        let s = self.0@;
        if dot < s.len() {
            assert(is_first_dot(s, dot));
            let i = choose|i: int| is_first_dot(s, i);
            if i < dot {
                assert(s[i] != '.');
            }
            if dot < i {
                assert(s[dot] != '.');
            }
            assert(s.take(dot) =~= s.subrange(0, dot));
            assert(s.skip(dot + 1) =~= s.subrange(dot + 1, s.len() as int));
        } else {
            assert(!exists|i: int| is_first_dot(s, i));
            assert(s.subrange(0, dot) =~= s);
        }
    }
}

/// The id of a scheduled message.
#[derive(Debug, Clone, PartialEq, Eq, Hash)]
pub struct SlackScheduledMid(pub String);

impl SlackScheduledMid {
    pub fn new(value: String) -> (r: Self)
        ensures
            r.0 == value,
    {
        SlackScheduledMid(value)
    }

    pub fn value(&self) -> (r: &String)
        ensures
            *r == self.0,
    {
        &self.0
    }
}

/// The id of a workspace.
#[derive(Debug, Clone, PartialEq, Eq, Hash)]
pub struct SlackTeamId(pub String);

impl SlackTeamId {
    pub fn new(value: String) -> (r: Self)
        ensures
            r.0 == value,
    {
        SlackTeamId(value)
    }

    pub fn value(&self) -> (r: &String)
        ensures
            *r == self.0,
    {
        &self.0
    }
}

/// The id of an enterprise subteam.
#[derive(Debug, Clone, PartialEq, Eq, Hash)]
pub struct SlackEnterpriseSubteamId(pub String);

impl SlackEnterpriseSubteamId {
    pub fn new(value: String) -> (r: Self)
        ensures
            r.0 == value,
    {
        SlackEnterpriseSubteamId(value)
    }

    pub fn value(&self) -> (r: &String)
        ensures
            *r == self.0,
    {
        &self.0
    }
}

/// The id of an app.
#[derive(Debug, Clone, PartialEq, Eq, Hash)]
pub struct SlackAppId(pub String);

impl SlackAppId {
    pub fn new(value: String) -> (r: Self)
        ensures
            r.0 == value,
    {
        SlackAppId(value)
    }

    pub fn value(&self) -> (r: &String)
        ensures
            *r == self.0,
    {
        &self.0
    }
}

/// The id of a channel.
#[derive(Debug, Clone, PartialEq, Eq, Hash)]
pub struct SlackChannelId(pub String);

impl SlackChannelId {
    pub fn new(value: String) -> (r: Self)
        ensures
            r.0 == value,
    {
        SlackChannelId(value)
    }

    pub fn value(&self) -> (r: &String)
        ensures
            *r == self.0,
    {
        &self.0
    }
}

/// The client-side id of a message.
#[derive(Debug, Clone, PartialEq, Eq, Hash)]
pub struct SlackClientMessageId(pub String);

impl SlackClientMessageId {
    pub fn new(value: String) -> (r: Self)
        ensures
            r.0 == value,
    {
        SlackClientMessageId(value)
    }

    pub fn value(&self) -> (r: &String)
        ensures
            *r == self.0,
    {
        &self.0
    }
}

/// The type of a channel.
#[derive(Debug, Clone, PartialEq, Eq, Hash)]
pub struct SlackChannelType(pub String);

impl SlackChannelType {
    pub fn new(value: String) -> (r: Self)
        ensures
            r.0 == value,
    {
        SlackChannelType(value)
    }

    pub fn value(&self) -> (r: &String)
        ensures
            *r == self.0,
    {
        &self.0
    }
}

/// The id of a conversation.
#[derive(Debug, Clone, PartialEq, Eq, Hash)]
pub struct SlackConversationId(pub String);

impl SlackConversationId {
    pub fn new(value: String) -> (r: Self)
        ensures
            r.0 == value,
    {
        SlackConversationId(value)
    }

    pub fn value(&self) -> (r: &String)
        ensures
            *r == self.0,
    {
        &self.0
    }
}

/// The id of an interactive action.
#[derive(Debug, Clone, PartialEq, Eq, Hash)]
pub struct SlackActionId(pub String);

impl SlackActionId {
    pub fn new(value: String) -> (r: Self)
        ensures
            r.0 == value,
    {
        SlackActionId(value)
    }

    pub fn value(&self) -> (r: &String)
        ensures
            *r == self.0,
    {
        &self.0
    }
}

/// The type of an interactive action.
#[derive(Debug, Clone, PartialEq, Eq, Hash)]
pub struct SlackActionType(pub String);

impl SlackActionType {
    pub fn new(value: String) -> (r: Self)
        ensures
            r.0 == value,
    {
        SlackActionType(value)
    }

    pub fn value(&self) -> (r: &String)
        ensures
            *r == self.0,
    {
        &self.0
    }
}

/// The id of a user.
#[derive(Debug, Clone, PartialEq, Eq, Hash)]
pub struct SlackUserId(pub String);

impl SlackUserId {
    pub fn new(value: String) -> (r: Self)
        ensures
            r.0 == value,
    {
        SlackUserId(value)
    }

    pub fn value(&self) -> (r: &String)
        ensures
            *r == self.0,
    {
        &self.0
    }
}

/// The id of a user group.
#[derive(Debug, Clone, PartialEq, Eq, Hash)]
pub struct SlackUserGroupId(pub String);

impl SlackUserGroupId {
    pub fn new(value: String) -> (r: Self)
        ensures
            r.0 == value,
    {
        SlackUserGroupId(value)
    }

    pub fn value(&self) -> (r: &String)
        ensures
            *r == self.0,
    {
        &self.0
    }
}

/// The id of a bot.
#[derive(Debug, Clone, PartialEq, Eq, Hash)]
pub struct SlackBotId(pub String);

impl SlackBotId {
    pub fn new(value: String) -> (r: Self)
        ensures
            r.0 == value,
    {
        SlackBotId(value)
    }

    pub fn value(&self) -> (r: &String)
        ensures
            *r == self.0,
    {
        &self.0
    }
}

/// A locale, such as `en-US`.
#[derive(Debug, Clone, PartialEq, Eq, Hash)]
pub struct SlackLocale(pub String);

impl SlackLocale {
    pub fn new(value: String) -> (r: Self)
        ensures
            r.0 == value,
    {
        SlackLocale(value)
    }

    pub fn value(&self) -> (r: &String)
        ensures
            *r == self.0,
    {
        &self.0
    }
}

/// A pagination cursor.
#[derive(Debug, Clone, PartialEq, Eq, Hash)]
pub struct SlackCursorId(pub String);

impl SlackCursorId {
    pub fn new(value: String) -> (r: Self)
        ensures
            r.0 == value,
    {
        SlackCursorId(value)
    }

    pub fn value(&self) -> (r: &String)
        ensures
            *r == self.0,
    {
        &self.0
    }
}

/// A color, such as `#36a64f`.
#[derive(Debug, Clone, PartialEq, Eq, Hash)]
pub struct SlackColor(pub String);

impl SlackColor {
    pub fn new(value: String) -> (r: Self)
        ensures
            r.0 == value,
    {
        SlackColor(value)
    }

    pub fn value(&self) -> (r: &String)
        ensures
            *r == self.0,
    {
        &self.0
    }
}

/// The callback id of a view or shortcut.
#[derive(Debug, Clone, PartialEq, Eq, Hash)]
pub struct SlackCallbackId(pub String);

impl SlackCallbackId {
    pub fn new(value: String) -> (r: Self)
        ensures
            r.0 == value,
    {
        SlackCallbackId(value)
    }

    pub fn value(&self) -> (r: &String)
        ensures
            *r == self.0,
    {
        &self.0
    }
}

/// The trigger id of an interaction.
#[derive(Debug, Clone, PartialEq, Eq, Hash)]
pub struct SlackTriggerId(pub String);

impl SlackTriggerId {
    pub fn new(value: String) -> (r: Self)
        ensures
            r.0 == value,
    {
        SlackTriggerId(value)
    }

    pub fn value(&self) -> (r: &String)
        ensures
            *r == self.0,
    {
        &self.0
    }
}

/// The id of a view.
#[derive(Debug, Clone, PartialEq, Eq, Hash)]
pub struct SlackViewId(pub String);

impl SlackViewId {
    pub fn new(value: String) -> (r: Self)
        ensures
            r.0 == value,
    {
        SlackViewId(value)
    }

    pub fn value(&self) -> (r: &String)
        ensures
            *r == self.0,
    {
        &self.0
    }
}

/// A slash command, such as `/weather`.
#[derive(Debug, Clone, PartialEq, Eq, Hash)]
pub struct SlackCommandId(pub String);

impl SlackCommandId {
    pub fn new(value: String) -> (r: Self)
        ensures
            r.0 == value,
    {
        SlackCommandId(value)
    }

    pub fn value(&self) -> (r: &String)
        ensures
            *r == self.0,
    {
        &self.0
    }
}

/// The OAuth client id of an app.
#[derive(Debug, Clone, PartialEq, Eq, Hash)]
pub struct SlackClientId(pub String);

impl SlackClientId {
    pub fn new(value: String) -> (r: Self)
        ensures
            r.0 == value,
    {
        SlackClientId(value)
    }

    pub fn value(&self) -> (r: &String)
        ensures
            *r == self.0,
    {
        &self.0
    }
}

/// An OAuth scope.
#[derive(Debug, Clone, PartialEq, Eq, Hash)]
pub struct SlackApiTokenScope(pub String);

impl SlackApiTokenScope {
    pub fn new(value: String) -> (r: Self)
        ensures
            r.0 == value,
    {
        SlackApiTokenScope(value)
    }

    pub fn value(&self) -> (r: &String)
        ensures
            *r == self.0,
    {
        &self.0
    }
}

/// An email address.
#[derive(Debug, Clone, PartialEq, Eq, Hash)]
pub struct EmailAddress(pub String);

impl EmailAddress {
    pub fn new(value: String) -> (r: Self)
        ensures
            r.0 == value,
    {
        EmailAddress(value)
    }

    pub fn value(&self) -> (r: &String)
        ensures
            *r == self.0,
    {
        &self.0
    }
}

/// A phone number.
#[derive(Debug, Clone, PartialEq, Eq, Hash)]
pub struct PhoneNumber(pub String);

impl PhoneNumber {
    pub fn new(value: String) -> (r: Self)
        ensures
            r.0 == value,
    {
        PhoneNumber(value)
    }

    pub fn value(&self) -> (r: &String)
        ensures
            *r == self.0,
    {
        &self.0
    }
}

/// The id of a link unfurl.
#[derive(Debug, Clone, PartialEq, Eq, Hash)]
pub struct SlackUnfurlId(pub String);

impl SlackUnfurlId {
    pub fn new(value: String) -> (r: Self)
        ensures
            r.0 == value,
    {
        SlackUnfurlId(value)
    }

    pub fn value(&self) -> (r: &String)
        ensures
            *r == self.0,
    {
        &self.0
    }
}

/// A MIME type.
#[derive(Debug, Clone, PartialEq, Eq, Hash)]
pub struct SlackMimeType(pub String);

impl SlackMimeType {
    pub fn new(value: String) -> (r: Self)
        ensures
            r.0 == value,
    {
        SlackMimeType(value)
    }

    pub fn value(&self) -> (r: &String)
        ensures
            *r == self.0,
    {
        &self.0
    }
}

/// An emoji, such as `:smile:`.
#[derive(Debug, Clone, PartialEq, Eq, Hash)]
pub struct SlackEmoji(pub String);

impl SlackEmoji {
    pub fn new(value: String) -> (r: Self)
        ensures
            r.0 == value,
    {
        SlackEmoji(value)
    }

    pub fn value(&self) -> (r: &String)
        ensures
            *r == self.0,
    {
        &self.0
    }
}

/// The type of an event.
#[derive(Debug, Clone, PartialEq, Eq, Hash)]
pub struct SlackEventType(pub String);

impl SlackEventType {
    pub fn new(value: String) -> (r: Self)
        ensures
            r.0 == value,
    {
        SlackEventType(value)
    }

    pub fn value(&self) -> (r: &String)
        ensures
            *r == self.0,
    {
        &self.0
    }
}

/// The id of an enterprise grid organization.
#[derive(Debug, Clone, PartialEq, Eq, Hash)]
pub struct SlackEnterpriseId(pub String);

impl SlackEnterpriseId {
    pub fn new(value: String) -> (r: Self)
        ensures
            r.0 == value,
    {
        SlackEnterpriseId(value)
    }

    pub fn value(&self) -> (r: &String)
        ensures
            *r == self.0,
    {
        &self.0
    }
}


impl SlackEmoji {
    pub const SMILE: &'static str = ":smile:";
    pub const SPEECH_BALLOON: &'static str = ":speech_balloon:";
    pub const HEAVY_CHECK_MARK: &'static str = ":heavy_check_mark:";
}

/// Text in the markup of Slack messages, such as a mention.
pub trait SlackTextFormat {
    /// The markup text.
    spec fn slack_format(&self) -> Seq<char>;

    /// The markup text.
    fn to_slack_format(&self) -> (r: String)
        ensures
            r@ == self.slack_format(),
    ;
}

/// `prefix`, then `value`, then `suffix`.
fn surround(prefix: &str, value: &str, suffix: &str) -> (r: String)
    ensures
        r@ == prefix@ + value@ + suffix@,
{
    let mut text = String::from_str(prefix);
    text.append(value);
    text.append(suffix);
    text
}

impl SlackTextFormat for SlackChannelId {
    /// A link to the channel: `<#id>`.
    open spec fn slack_format(&self) -> Seq<char> {
        "<#"@ + self.0@ + ">"@
    }

    fn to_slack_format(&self) -> (r: String) {
        surround("<#", self.0.as_str(), ">")
    }
}

impl SlackTextFormat for SlackUserId {
    /// A mention of the user: `<@id>`.
    open spec fn slack_format(&self) -> Seq<char> {
        "<@"@ + self.0@ + ">"@
    }

    fn to_slack_format(&self) -> (r: String) {
        surround("<@", self.0.as_str(), ">")
    }
}

impl SlackTextFormat for SlackUserGroupId {
    /// A mention of the user group: `<!subteam^id>`.
    open spec fn slack_format(&self) -> Seq<char> {
        "<!subteam^"@ + self.0@ + ">"@
    }

    fn to_slack_format(&self) -> (r: String) {
        surround("<!subteam^", self.0.as_str(), ">")
    }
}

/// The text that stands for a secret in debug output: the type's name and
/// the length of the secret in bytes, never the secret itself.
pub open spec fn redacted_text(label: Seq<char>, secret: Seq<char>) -> Seq<char> {
    label + "(len:"@ + nat_to_decimal(encode_utf8(secret).len()) + ")"@
}

/// `label(len:<bytes of secret>)`.
fn redacted(label: &str, secret: &str) -> (r: String)
    ensures
        r@ == redacted_text(label@, secret@),
{
    let mut text = String::from_str(label);
    text.append("(len:");
    append_u64(&mut text, secret.as_bytes().len() as u64);
    text.append(")");
    text
}

/// The OAuth client secret of an app.
#[derive(Clone, PartialEq, Eq, Hash)]
pub struct SlackClientSecret(pub String);

impl SlackClientSecret {
    pub fn new(value: String) -> (r: Self)
        ensures
            r.0 == value,
    {
        SlackClientSecret(value)
    }

    pub fn value(&self) -> (r: &String)
        ensures
            *r == self.0,
    {
        &self.0
    }

    /// The debug text: `SlackClientSecret(len:<n>)`.
    pub fn redacted_debug(&self) -> (r: String)
        ensures
            r@ == redacted_text("SlackClientSecret"@, self.0@),
    {
        redacted("SlackClientSecret", self.0.as_str())
    }
}

/// The verification token of an app.
#[derive(Clone, PartialEq, Eq, Hash)]
pub struct SlackVerificationToken(pub String);

impl SlackVerificationToken {
    pub fn new(value: String) -> (r: Self)
        ensures
            r.0 == value,
    {
        SlackVerificationToken(value)
    }

    pub fn value(&self) -> (r: &String)
        ensures
            *r == self.0,
    {
        &self.0
    }

    /// The debug text: `SlackVerificationToken(len:<n>)`.
    pub fn redacted_debug(&self) -> (r: String)
        ensures
            r@ == redacted_text("SlackVerificationToken"@, self.0@),
    {
        redacted("SlackVerificationToken", self.0.as_str())
    }
}

/// The signing secret of an app.
#[derive(Clone, PartialEq, Eq, Hash)]
pub struct SlackSigningSecret(pub String);

impl SlackSigningSecret {
    pub fn new(value: String) -> (r: Self)
        ensures
            r.0 == value,
    {
        SlackSigningSecret(value)
    }

    pub fn value(&self) -> (r: &String)
        ensures
            *r == self.0,
    {
        &self.0
    }

    /// The debug text: `SlackSigningSecret(len:<n>)`.
    pub fn redacted_debug(&self) -> (r: String)
        ensures
            r@ == redacted_text("SlackSigningSecret"@, self.0@),
    {
        redacted("SlackSigningSecret", self.0.as_str())
    }
}

/// An instant, written as whole Unix seconds in the API.
#[derive(Debug, Clone, Copy, PartialEq, Eq, Hash)]
pub struct SlackDateTime(pub SlackUtcDateTime);

impl SlackDateTime {
    pub fn new(value: SlackUtcDateTime) -> (r: Self)
        ensures
            r.0 == value,
    {
        SlackDateTime(value)
    }

    pub fn value(&self) -> (r: &SlackUtcDateTime)
        ensures
            *r == self.0,
    {
        &self.0
    }

    /// The current instant.
    pub fn now() -> Self {
        SlackDateTime(now())
    }
}

/// A calendar date, `YYYY-MM-DD`.
#[derive(Debug, Clone, PartialEq, Eq, Hash)]
pub struct SlackDate(pub String);

impl SlackDate {
    pub fn new(value: String) -> (r: Self)
        ensures
            r.0 == value,
    {
        SlackDate(value)
    }

    pub fn value(&self) -> (r: &String)
        ensures
            *r == self.0,
    {
        &self.0
    }

    /// The date, when the text is a valid `YYYY-MM-DD` date.
    pub fn to_naive_date(&self) -> (r: Option<SlackCivilDate>)
        ensures
            match jiff_ymd_date(self.0@) {
                Some((y, m, d)) => r matches Some(date) && date@ == (y as int, m as int, d as int),
                None => r is None,
            },
    {
        parse_civil_date(self.0.as_str())
    }
}

/// Pagination data of a response.
#[derive(Debug, Clone, PartialEq)]
pub struct SlackResponseMetadata {
    pub next_cursor: Option<SlackCursorId>,
}

impl SlackResponseMetadata {
    pub fn new() -> (r: Self)
        ensures
            r.next_cursor is None,
    {
        SlackResponseMetadata { next_cursor: None }
    }
}

/// The kinds of conversations.
#[derive(Debug, Clone, Copy, PartialEq, Eq)]
pub enum SlackConversationType {
    Im,
    Mpim,
    Private,
    Public,
}

/// The API name of a conversation type.
pub open spec fn conversation_label(t: SlackConversationType) -> Seq<char> {
    match t {
        SlackConversationType::Im => "im"@,
        SlackConversationType::Mpim => "mpim"@,
        SlackConversationType::Private => "private_channel"@,
        SlackConversationType::Public => "public_channel"@,
    }
}

impl SlackConversationType {
    /// The API name: `im`, `mpim`, `private_channel` or `public_channel`.
    pub fn to_string(&self) -> (r: String)
        ensures
            r@ == conversation_label(*self),
    {
        match self {
            SlackConversationType::Im => String::from_str("im"),
            SlackConversationType::Mpim => String::from_str("mpim"),
            SlackConversationType::Private => String::from_str("private_channel"),
            SlackConversationType::Public => String::from_str("public_channel"),
        }
    }
}

/// The kinds of shortcuts.
#[derive(Debug, Clone, Copy, PartialEq, Eq)]
pub enum SlackShortcutType {
    Message,
    Global,
}

} // verus!
