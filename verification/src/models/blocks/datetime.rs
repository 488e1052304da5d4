//! Dates in message text: `<!date^timestamp^format^link|fallback>`, which
//! Slack shows in the reader's time zone.

use vstd::prelude::*;

use crate::decimal::{append_i64, int_to_decimal};
use crate::models::common::SlackTextFormat;
use crate::models::common::datetime::{rfc2822_utc_text, to_rfc2822, unix_seconds, SlackUtcDateTime};

verus! {

/// The date and time formats of the date markup.
#[derive(Debug, Clone, Copy, PartialEq, Eq)]
pub enum SlackDateTimeFormats {
    DateNum,
    Date,
    DateShort,
    DateLong,
    DatePretty,
    DateShortPretty,
    DateLongPretty,
    Time,
    TimeSecs,
}

/// The token of a format.
pub open spec fn format_token(f: SlackDateTimeFormats) -> Seq<char> {
    match f {
        SlackDateTimeFormats::DateNum => "{date_num}"@,
        SlackDateTimeFormats::Date => "{date}"@,
        SlackDateTimeFormats::DateShort => "{date_short}"@,
        SlackDateTimeFormats::DateLong => "{date_long}"@,
        SlackDateTimeFormats::DatePretty => "{date_pretty}"@,
        SlackDateTimeFormats::DateShortPretty => "{date_short_pretty}"@,
        SlackDateTimeFormats::DateLongPretty => "{date_long_pretty}"@,
        SlackDateTimeFormats::Time => "{time}"@,
        SlackDateTimeFormats::TimeSecs => "{time_secs}"@,
    }
}

impl SlackDateTimeFormats {
    /// The token of the format, such as `{date_pretty}`.
    pub fn to_string(&self) -> (r: String)
        ensures
            r@ == format_token(*self),
    {
        match self {
            SlackDateTimeFormats::DateNum => String::from_str("{date_num}"),
            SlackDateTimeFormats::Date => String::from_str("{date}"),
            SlackDateTimeFormats::DateShort => String::from_str("{date_short}"),
            SlackDateTimeFormats::DateLong => String::from_str("{date_long}"),
            SlackDateTimeFormats::DatePretty => String::from_str("{date_pretty}"),
            SlackDateTimeFormats::DateShortPretty => String::from_str("{date_short_pretty}"),
            SlackDateTimeFormats::DateLongPretty => String::from_str("{date_long_pretty}"),
            SlackDateTimeFormats::Time => String::from_str("{time}"),
            SlackDateTimeFormats::TimeSecs => String::from_str("{time_secs}"),
        }
    }
}

/// The date markup: `<!date^<timestamp>^<tokens>^<link>|<fallback>>`, the
/// `^<link>` part only when there is a link.
pub open spec fn date_markup(timestamp: int, fallback: Seq<char>, token_string: Seq<char>, link: Option<Seq<char>>) -> Seq<char> {
    let link_part = match link {
        Some(l) => "^"@ + l,
        None => Seq::<char>::empty(),
    };
    "<!date^"@ + int_to_decimal(timestamp) + "^"@ + token_string + link_part + "|"@ + fallback + ">"@
}

/// The date markup of the given parts.
pub fn fmt_slack_date_parts(timestamp: i64, fallback: &str, token_string: &str, link: Option<&String>) -> (r: String)
    ensures
        r@ == date_markup(timestamp as int, fallback@, token_string@, match link { Some(l) => Some(l@), None => None }),
{
    let mut text = String::from_str("<!date^");
    append_i64(&mut text, timestamp);
    text.append("^");
    text.append(token_string);
    match link {
        Some(l) => {
            text.append("^");
            text.append(l.as_str());
        },
        None => {},
    }
    text.append("|");
    text.append(fallback);
    text.append(">");
    proof {
        assert(text@ =~= date_markup(timestamp as int, fallback@, token_string@, match link { Some(l) => Some(l@), None => None }));
    }
    text
}

/// The date markup of an instant, with its RFC 2822 text in UTC as the
/// fallback.
pub open spec fn date_time_markup(date: SlackUtcDateTime, token_string: Seq<char>, link: Option<Seq<char>>) -> Seq<char> {
    date_markup(date@.0, rfc2822_utc_text(date@.0 as i64, date@.1 as i32), token_string, link)
}

/// The date markup of an instant.
pub fn fmt_slack_date(date: &SlackUtcDateTime, token_string: &str, link: Option<&String>) -> (r: String)
    ensures
        r@ == date_time_markup(*date, token_string@, match link { Some(l) => Some(l@), None => None }),
{
    let fallback = to_rfc2822(date);
    fmt_slack_date_parts(unix_seconds(date), fallback.as_str(), token_string, link)
}

impl SlackTextFormat for SlackUtcDateTime {
    /// The date markup with the `{date_pretty}` format and no link.
    open spec fn slack_format(&self) -> Seq<char> {
        date_time_markup(*self, "{date_pretty}"@, None)
    }

    fn to_slack_format(&self) -> (r: String) {
        let token = SlackDateTimeFormats::DatePretty.to_string();
        fmt_slack_date(self, token.as_str(), None)
    }
}

} // verus!
