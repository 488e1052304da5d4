//! The instants and calendar dates of the Slack models, backed by `jiff`.

use vstd::prelude::*;

verus! {

/// The first second that `jiff::Timestamp` represents.
pub open spec fn min_timestamp_second() -> int {
    -377705023201
}

/// The last second that `jiff::Timestamp` represents.
pub open spec fn max_timestamp_second() -> int {
    253402207200
}

/// When `jiff::Timestamp::new(second, nanosecond)` succeeds: the second is in
/// the supported range, the nanoseconds are less than a second either way,
/// and nothing lies before the first second.
pub open spec fn timestamp_in_range(second: int, nanosecond: int) -> bool {
    &&& min_timestamp_second() <= second <= max_timestamp_second()
    &&& -999_999_999 <= nanosecond <= 999_999_999
    &&& !(second == min_timestamp_second() && nanosecond < 0)
}

/// The representation that `jiff::Timestamp` keeps: in range, and the
/// seconds and nanoseconds never of opposite signs.
pub open spec fn valid_timestamp(second: int, nanosecond: int) -> bool {
    &&& timestamp_in_range(second, nanosecond)
    &&& (nanosecond == 0 || second == 0 || (second > 0) == (nanosecond > 0))
}

/// The instant as nanoseconds since the Unix epoch.
pub open spec fn nanos_since_epoch(second: int, nanosecond: int) -> int {
    second * 1_000_000_000 + nanosecond
}

/// A valid representation is determined by the instant it stands for.
pub proof fn lemma_timestamp_representation_unique(s1: int, n1: int, s2: int, n2: int)
    requires
        valid_timestamp(s1, n1),
        valid_timestamp(s2, n2),
        nanos_since_epoch(s1, n1) == nanos_since_epoch(s2, n2),
    ensures
        s1 == s2,
        n1 == n2,
{
    assert(s1 == s2) by (nonlinear_arith)
        requires
            -999_999_999 <= n1 <= 999_999_999,
            -999_999_999 <= n2 <= 999_999_999,
            n1 == 0 || s1 == 0 || (s1 > 0) == (n1 > 0),
            n2 == 0 || s2 == 0 || (s2 > 0) == (n2 > 0),
            s1 * 1_000_000_000 + n1 == s2 * 1_000_000_000 + n2,
    {
    }
}

/// `jiff::Timestamp::new(second, nanosecond)`, given back as the seconds
/// and nanoseconds that the timestamp keeps. It succeeds exactly on the
/// inputs in range, and the timestamp stands for the same instant, in the
/// normalized representation.
#[verifier::external_body]
fn jiff_timestamp_new(second: i64, nanosecond: i32) -> (r: Option<(i64, i32)>)
    ensures
        r is Some <==> timestamp_in_range(second as int, nanosecond as int),
        r matches Some((s, n)) ==> valid_timestamp(s as int, n as int)
            && nanos_since_epoch(s as int, n as int) == nanos_since_epoch(second as int, nanosecond as int),
{
    match jiff::Timestamp::new(second, nanosecond) {
        Ok(ts) => Some((ts.as_second(), ts.subsec_nanosecond())),
        Err(_) => None,
    }
}

/// `jiff::Timestamp::now()`: the current time, as the seconds and
/// nanoseconds of the timestamp. Only the validity of the representation is
/// stated: the value is the time.
#[verifier::external_body]
fn jiff_timestamp_now() -> (r: (i64, i32))
    ensures
        valid_timestamp(r.0 as int, r.1 as int),
{
    let ts = jiff::Timestamp::now();
    (ts.as_second(), ts.subsec_nanosecond())
}

/// The RFC 2822 text of a timestamp in UTC that `jiff` writes, or its
/// default text when RFC 2822 cannot express the year.
pub uninterp spec fn rfc2822_utc_text(second: i64, nanosecond: i32) -> Seq<char>;

/// `jiff::fmt::rfc2822::to_string` of the timestamp in UTC, and
/// `Timestamp::to_string` when that fails (for negative years).
#[verifier::external_body]
fn jiff_rfc2822_utc(second: i64, nanosecond: i32) -> (r: String)
    requires
        valid_timestamp(second as int, nanosecond as int),
    ensures
        r@ == rfc2822_utc_text(second, nanosecond),
{
    match jiff::Timestamp::new(second, nanosecond) {
        Ok(ts) => match jiff::fmt::rfc2822::to_string(&ts.to_zoned(jiff::tz::TimeZone::UTC)) {
            Ok(text) => text,
            Err(_) => ts.to_string(),
        },
        Err(_) => String::new(),
    }
}

/// An instant in time in UTC, as `jiff::Timestamp` keeps it: whole seconds
/// since the Unix epoch and the nanoseconds of the second.
#[derive(Debug, Clone, Copy, PartialEq, Eq, Hash)]
pub struct SlackUtcDateTime {
    second: i64,
    nanosecond: i32,
}

impl View for SlackUtcDateTime {
    type V = (int, int);

    closed spec fn view(&self) -> (int, int) {
        (self.second as int, self.nanosecond as int)
    }
}

impl SlackUtcDateTime {
    #[verifier::type_invariant]
    spec fn well_formed(self) -> bool {
        valid_timestamp(self.second as int, self.nanosecond as int)
    }

    /// Whole seconds since the Unix epoch (`Timestamp::as_second`).
    pub fn as_second(&self) -> (r: i64)
        ensures
            r as int == self@.0,
            valid_timestamp(self@.0, self@.1),
    {
        proof {
            use_type_invariant(self);
        }
        self.second
    }

    /// The nanoseconds of the second (`Timestamp::subsec_nanosecond`).
    pub fn subsec_nanosecond(&self) -> (r: i32)
        ensures
            r as int == self@.1,
    {
        self.nanosecond
    }

    /// The instant of the given seconds and nanoseconds, when `jiff`
    /// represents it.
    pub fn new(second: i64, nanosecond: i32) -> (r: Option<SlackUtcDateTime>)
        ensures
            r is Some <==> timestamp_in_range(second as int, nanosecond as int),
            r matches Some(dt) ==> nanos_since_epoch(dt@.0, dt@.1) == nanos_since_epoch(second as int, nanosecond as int)
                && valid_timestamp(dt@.0, dt@.1)
                && dt == at_instant(nanos_since_epoch(second as int, nanosecond as int)),
    {
        match jiff_timestamp_new(second, nanosecond) {
            Some((s, n)) => {
                proof {
                    lemma_at_instant(s as int, n as int);
                }
                Some(SlackUtcDateTime { second: s, nanosecond: n })
            },
            None => None,
        }
    }
}

/// The date-time at an instant given in nanoseconds since the epoch, in the
/// representation `jiff` keeps: the whole seconds toward zero, and the rest
/// of the nanoseconds with the same sign.
pub closed spec fn at_instant(nanos: int) -> SlackUtcDateTime {
    let s: int = if nanos >= 0 { nanos / 1_000_000_000 } else { -((-nanos) / 1_000_000_000) };
    SlackUtcDateTime { second: s as i64, nanosecond: (nanos - s * 1_000_000_000) as i32 }
}

/// The date-time at an optional instant.
pub open spec fn date_time_at(instant: Option<int>) -> Option<SlackUtcDateTime> {
    match instant {
        Some(nanos) => Some(at_instant(nanos)),
        None => None,
    }
}

/// A valid representation is the one [`at_instant`] gives for its instant:
/// date-times at the same instant are equal.
pub proof fn lemma_at_instant(second: int, nanosecond: int)
    requires
        valid_timestamp(second, nanosecond),
    ensures
        at_instant(nanos_since_epoch(second, nanosecond))@ == (second, nanosecond),
{
    let n = nanos_since_epoch(second, nanosecond);
    if n >= 0 {
        assert(second >= 0 && nanosecond >= 0) by (nonlinear_arith)
            requires
                n == second * 1_000_000_000 + nanosecond,
                n >= 0,
                -999_999_999 <= nanosecond <= 999_999_999,
                nanosecond == 0 || second == 0 || (second > 0) == (nanosecond > 0),
        ;
        vstd::arithmetic::div_mod::lemma_fundamental_div_mod_converse(n, 1_000_000_000, second, nanosecond);
    } else {
        assert(second <= 0 && nanosecond <= 0) by (nonlinear_arith)
            requires
                n == second * 1_000_000_000 + nanosecond,
                n < 0,
                -999_999_999 <= nanosecond <= 999_999_999,
                nanosecond == 0 || second == 0 || (second > 0) == (nanosecond > 0),
        ;
        vstd::arithmetic::div_mod::lemma_fundamental_div_mod_converse(-n, 1_000_000_000, -second, -nanosecond);
    }
}

/// The instant that `from_unix_seconds_micros` gives, as nanoseconds since
/// the epoch: `None` when the microseconds do not fit `i32` once counted in
/// nanoseconds, or the instant is out of range.
pub open spec fn instant_of_seconds_micros(secs: int, micros: int) -> Option<int> {
    if micros * 1000 > i32::MAX || !timestamp_in_range(secs, micros * 1000) {
        None
    } else {
        Some(nanos_since_epoch(secs, micros * 1000))
    }
}

/// The instant of an optional date-time, as nanoseconds since the epoch.
pub open spec fn instant_of(dt: Option<SlackUtcDateTime>) -> Option<int> {
    match dt {
        Some(d) => Some(nanos_since_epoch(d@.0, d@.1)),
        None => None,
    }
}

/// Builds an instant from unix seconds and an additional microseconds
/// offset; `None` when the result is out of the supported range.
pub fn from_unix_seconds_micros(secs: i64, micros: u32) -> (r: Option<SlackUtcDateTime>)
    ensures
        instant_of(r) == instant_of_seconds_micros(secs as int, micros as int),
        r == date_time_at(instant_of_seconds_micros(secs as int, micros as int)),
{
    if micros > 2147483 {
        return None;
    }
    let nanos: i32 = (micros as i32) * 1000;
    SlackUtcDateTime::new(secs, nanos)
}

/// The current instant in UTC.
pub fn now() -> SlackUtcDateTime {
    let (second, nanosecond) = jiff_timestamp_now();
    SlackUtcDateTime { second, nanosecond }
}

/// The number of whole seconds since the unix epoch.
pub fn unix_seconds(date_time: &SlackUtcDateTime) -> (r: i64)
    ensures
        r as int == date_time@.0,
{
    date_time.as_second()
}

/// Formats an instant as an RFC 2822 date-time in UTC.
pub fn to_rfc2822(date_time: &SlackUtcDateTime) -> (r: String)
    ensures
        r@ == rfc2822_utc_text(date_time@.0 as i64, date_time@.1 as i32),
{
    proof {
        use_type_invariant(date_time);
    }
    jiff_rfc2822_utc(date_time.second, date_time.nanosecond)
}

/// Whether `year-month-day` is a date of the proleptic Gregorian calendar in
/// the years `-9999..=9999`.
pub open spec fn valid_civil_date(year: int, month: int, day: int) -> bool {
    &&& -9999 <= year <= 9999
    &&& 1 <= month <= 12
    &&& 1 <= day <= days_in_month(year, month)
}

/// Whether `year` is a leap year.
pub open spec fn is_leap_year(year: int) -> bool {
    (year % 4 == 0 && year % 100 != 0) || year % 400 == 0
}

/// The number of days of a month.
pub open spec fn days_in_month(year: int, month: int) -> int {
    if month == 2 {
        if is_leap_year(year) { 29 } else { 28 }
    } else if month == 4 || month == 6 || month == 9 || month == 11 {
        30
    } else {
        31
    }
}

/// What `jiff::fmt::strtime::parse("%Y-%m-%d", text)` followed by `to_date`
/// gives, as year, month and day.
pub uninterp spec fn jiff_ymd_date(text: Seq<char>) -> Option<(i16, i8, i8)>;

/// `jiff::fmt::strtime::parse("%Y-%m-%d", value)` and `to_date`, given back
/// as year, month and day. A date that `jiff` builds is always valid.
#[verifier::external_body]
fn jiff_parse_ymd(value: &str) -> (r: Option<(i16, i8, i8)>)
    ensures
        r == jiff_ymd_date(value@),
        r matches Some((y, m, d)) ==> valid_civil_date(y as int, m as int, d as int),
{
    match jiff::fmt::strtime::parse("%Y-%m-%d", value) {
        Ok(parsed) => match parsed.to_date() {
            Ok(date) => Some((date.year(), date.month(), date.day())),
            Err(_) => None,
        },
        Err(_) => None,
    }
}

/// A calendar date without a time zone, as `jiff::civil::Date` keeps it.
#[derive(Debug, Clone, Copy, PartialEq, Eq, Hash)]
pub struct SlackCivilDate {
    year: i16,
    month: i8,
    day: i8,
}

impl View for SlackCivilDate {
    type V = (int, int, int);

    closed spec fn view(&self) -> (int, int, int) {
        (self.year as int, self.month as int, self.day as int)
    }
}

impl SlackCivilDate {
    #[verifier::type_invariant]
    spec fn well_formed(self) -> bool {
        valid_civil_date(self.year as int, self.month as int, self.day as int)
    }

    /// The year.
    pub fn year(&self) -> (r: i16)
        ensures
            r as int == self@.0,
            valid_civil_date(self@.0, self@.1, self@.2),
    {
        proof {
            use_type_invariant(self);
        }
        self.year
    }

    /// The month, `1..=12`.
    pub fn month(&self) -> (r: i8)
        ensures
            r as int == self@.1,
    {
        self.month
    }

    /// The day of the month.
    pub fn day(&self) -> (r: i8)
        ensures
            r as int == self@.2,
    {
        self.day
    }
}

/// Parses a `YYYY-MM-DD` calendar date, rejecting anything else.
pub fn parse_civil_date(value: &str) -> (r: Option<SlackCivilDate>)
    ensures
        match jiff_ymd_date(value@) {
            Some((y, m, d)) => r matches Some(date) && date@ == (y as int, m as int, d as int),
            None => r is None,
        },
{
    match jiff_parse_ymd(value) {
        Some((year, month, day)) => Some(SlackCivilDate { year, month, day }),
        None => None,
    }
}

} // verus!
