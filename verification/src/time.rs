//! Instants on the UTC time line, and the calendar questions the tracker asks
//! about them.
//!
//! A [`Timestamp`] is a count of whole seconds since 1970-01-01T00:00:00Z plus
//! a nanosecond part.  Arithmetic on the time line is verified here; anything
//! that needs the civil calendar or the machine's time zone is delegated to
//! `chrono` through the small trusted functions at the end of this file.

use chrono::Datelike;
use chrono::TimeZone;
use crate::text::zero_padded;
use vstd::prelude::*;

verus! {

/// Smallest number of seconds since the epoch that a [`Timestamp`] can hold
/// (the first second of the year -262143).
pub const MIN_SECS: i64 = -8_334_601_228_800;

/// Largest number of seconds since the epoch that a [`Timestamp`] can hold
/// (the last second of the year 262142).
pub const MAX_SECS: i64 = 8_210_266_876_799;

/// Seconds in a civil day.
pub const SECS_PER_DAY: i64 = 86_400;

/// Nanoseconds in a second.
pub const NANOS_PER_SEC: u32 = 1_000_000_000;

/// An instant in UTC with nanosecond resolution.
///
/// Every value lies in `MIN_SECS ..= MAX_SECS` and has a nanosecond part
/// below one second, so differences of two instants always fit in an `i64`.
#[derive(Debug, Clone, Copy, PartialEq, Eq, Structural)]
pub struct Timestamp {
    secs: i64,
    nanos: u32,
}

/// Whether a pair of numbers denotes an instant that [`Timestamp`] can hold.
pub open spec fn representable(secs: int, nanos: int) -> bool {
    MIN_SECS <= secs <= MAX_SECS && 0 <= nanos < NANOS_PER_SEC
}

/// Truncation toward zero of `nanos / 10^9`.
pub open spec fn whole_seconds(nanos: int) -> int {
    if nanos >= 0 {
        nanos / (NANOS_PER_SEC as int)
    } else {
        -((-nanos) / (NANOS_PER_SEC as int))
    }
}

impl Timestamp {
    /// Seconds since the epoch, rounded down.
    pub closed spec fn spec_secs(self) -> int {
        self.secs as int
    }

    /// Nanoseconds past `spec_secs`.
    pub closed spec fn spec_nanos(self) -> int {
        self.nanos as int
    }

    /// The instant with the given parts (meaningful when they are
    /// [`representable`]).
    pub closed spec fn at(secs: int, nanos: int) -> Timestamp {
        Timestamp { secs: secs as i64, nanos: nanos as u32 }
    }

    /// Validity of an instant. Values held by executable code always satisfy
    /// it; an instant that exists only in a specification may not.
    #[verifier::type_invariant]
    pub open spec fn wf(self) -> bool {
        representable(self.spec_secs(), self.spec_nanos())
    }

    /// Nanoseconds since the epoch.
    pub open spec fn total_nanos(self) -> int {
        self.spec_secs() * (NANOS_PER_SEC as int) + self.spec_nanos()
    }

    /// Whole seconds from `earlier` to `self`, truncated toward zero; negative
    /// when `self` precedes `earlier`.
    pub open spec fn spec_seconds_since(self, earlier: Timestamp) -> int {
        whole_seconds(self.total_nanos() - earlier.total_nanos())
    }

    /// `self` is not after `other`.
    pub open spec fn spec_le(self, other: Timestamp) -> bool {
        self.total_nanos() <= other.total_nanos()
    }

    /// The instant `days` civil days after `self`, at the same time of day.
    pub open spec fn spec_plus_days(self, days: int) -> Timestamp {
        Timestamp::at(self.spec_secs() + days * SECS_PER_DAY, self.spec_nanos())
    }

    /// The instant `days` civil days after `self`, where it is representable.
    pub open spec fn spec_checked_add_days(self, days: int) -> Option<Timestamp> {
        if self.spec_secs() + days * SECS_PER_DAY <= MAX_SECS {
            Some(self.spec_plus_days(days))
        } else {
            None
        }
    }

    /// The instant `days` civil days before `self`, where it is
    /// representable.
    pub open spec fn spec_checked_sub_days(self, days: int) -> Option<Timestamp> {
        if self.spec_secs() - days * SECS_PER_DAY >= MIN_SECS {
            Some(self.spec_plus_days(-days))
        } else {
            None
        }
    }

    /// The instant `seconds` seconds after `self` (before it, for a negative
    /// number), where it is representable.
    pub open spec fn spec_checked_add_secs(self, seconds: int) -> Option<Timestamp> {
        if MIN_SECS <= self.spec_secs() + seconds <= MAX_SECS {
            Some(Timestamp::at(self.spec_secs() + seconds, self.spec_nanos()))
        } else {
            None
        }
    }

    /// Midnight (00:00:00, nanoseconds kept) of the UTC day that holds `self`.
    pub open spec fn spec_start_of_day(self) -> Timestamp {
        Timestamp::at(self.spec_secs() - self.spec_secs() % (SECS_PER_DAY as int), self.spec_nanos())
    }

    /// `at` builds the instant with exactly the parts it is given.
    pub proof fn lemma_at(secs: int, nanos: int)
        requires
            representable(secs, nanos),
        ensures
            Timestamp::at(secs, nanos).spec_secs() == secs,
            Timestamp::at(secs, nanos).spec_nanos() == nanos,
            Timestamp::at(secs, nanos).wf(),
    {
    }

    /// Every instant is `at` its own parts.
    pub proof fn lemma_at_parts(self)
        requires
            self.wf(),
        ensures
            Timestamp::at(self.spec_secs(), self.spec_nanos()) == self,
    {
    }

    /// Builds an instant from its parts; `None` exactly when the parts are not
    /// representable.
    pub fn new(secs: i64, nanos: u32) -> (r: Option<Timestamp>)
        ensures
            r.is_some() <==> representable(secs as int, nanos as int),
            r.is_some() ==> r.unwrap() == Timestamp::at(secs as int, nanos as int),
            r.is_some() ==> r.unwrap().spec_secs() == secs && r.unwrap().spec_nanos() == nanos,
    {
        if MIN_SECS <= secs && secs <= MAX_SECS && nanos < NANOS_PER_SEC {
            Some(Timestamp { secs, nanos })
        } else {
            None
        }
    }

    /// Seconds since the epoch, rounded down.
    #[verifier::when_used_as_spec(spec_secs_i64)]
    pub fn secs(&self) -> (r: i64)
        ensures
            r == self.spec_secs(),
            MIN_SECS <= r <= MAX_SECS,
    {
        proof {
            use_type_invariant(self);
        }
        self.secs
    }

    /// Nanoseconds past [`Timestamp::secs`], below one second.
    #[verifier::when_used_as_spec(spec_nanos_u32)]
    pub fn nanos(&self) -> (r: u32)
        ensures
            r == self.spec_nanos(),
            r < NANOS_PER_SEC,
    {
        proof {
            use_type_invariant(self);
        }
        self.nanos
    }

    /// Seconds since the epoch, as the machine number that [`Timestamp::secs`]
    /// returns.
    pub closed spec fn spec_secs_i64(&self) -> i64 {
        self.secs
    }

    /// Nanoseconds past the second, as the machine number that
    /// [`Timestamp::nanos`] returns.
    pub closed spec fn spec_nanos_u32(&self) -> u32 {
        self.nanos
    }

    /// Whole seconds elapsed from `earlier` to `self`, truncated toward zero.
    pub fn seconds_since(&self, earlier: &Timestamp) -> (r: i64)
        ensures
            r == self.spec_seconds_since(*earlier),
            MIN_SECS - MAX_SECS <= r <= MAX_SECS - MIN_SECS,
    {
        proof {
            use_type_invariant(self);
            use_type_invariant(earlier);
        }
        let ds: i64 = self.secs - earlier.secs;
        let dn: i64 = self.nanos as i64 - earlier.nanos as i64;
        let r: i64 = if ds > 0 && dn < 0 {
            ds - 1
        } else if ds < 0 && dn > 0 {
            ds + 1
        } else {
            ds
        };
        proof {
            let d = self.total_nanos() - earlier.total_nanos();
            assert(d == ds * 1_000_000_000 + dn);
            if ds > 0 && dn < 0 {
                assert(d == (ds - 1) * 1_000_000_000 + (1_000_000_000 + dn));
            } else if ds < 0 && dn > 0 {
                assert(-d == (-ds - 1) * 1_000_000_000 + (1_000_000_000 - dn));
            } else if ds < 0 {
                assert(-d == (-ds) * 1_000_000_000 + (-dn));
            }
        }
        r
    }

    /// Whether `self` is at or before `other`.
    pub fn le(&self, other: &Timestamp) -> (r: bool)
        ensures
            r == self.spec_le(*other),
    {
        proof {
            use_type_invariant(self);
            use_type_invariant(other);
        }
        self.secs < other.secs || (self.secs == other.secs && self.nanos <= other.nanos)
    }

    /// The instant `days` civil days later at the same time of day, or `None`
    /// exactly when that instant is not representable.
    pub fn checked_add_days(&self, days: u32) -> (r: Option<Timestamp>)
        ensures
            r == self.spec_checked_add_days(days as int),
            r.is_some() ==> r.unwrap().spec_secs() == self.spec_secs() + days * SECS_PER_DAY
                && r.unwrap().spec_nanos() == self.spec_nanos(),
    {
        proof {
            use_type_invariant(self);
        }
        let shift: i64 = days as i64 * SECS_PER_DAY;
        let secs: i64 = self.secs + shift;
        if secs <= MAX_SECS {
            Some(Timestamp { secs, nanos: self.nanos })
        } else {
            None
        }
    }

    /// The instant `days` civil days earlier at the same time of day, or
    /// `None` exactly when that instant is not representable.
    pub fn checked_sub_days(&self, days: u32) -> (r: Option<Timestamp>)
        ensures
            r == self.spec_checked_sub_days(days as int),
            r.is_some() ==> r.unwrap().spec_secs() == self.spec_secs() - days * SECS_PER_DAY
                && r.unwrap().spec_nanos() == self.spec_nanos(),
    {
        proof {
            use_type_invariant(self);
        }
        let shift: i64 = days as i64 * SECS_PER_DAY;
        let secs: i64 = self.secs - shift;
        if secs >= MIN_SECS {
            Some(Timestamp { secs, nanos: self.nanos })
        } else {
            None
        }
    }

    /// The instant `seconds` seconds later (earlier, for a negative number),
    /// or `None` exactly when that instant is not representable.
    pub fn checked_add_secs(&self, seconds: i64) -> (r: Option<Timestamp>)
        ensures
            r == self.spec_checked_add_secs(seconds as int),
            r.is_some() ==> r.unwrap().spec_secs() == self.spec_secs() + seconds
                && r.unwrap().spec_nanos() == self.spec_nanos(),
    {
        proof {
            use_type_invariant(self);
        }
        if seconds > MAX_SECS - MIN_SECS || seconds < MIN_SECS - MAX_SECS {
            return None;
        }
        let secs: i64 = self.secs + seconds;
        if MIN_SECS <= secs && secs <= MAX_SECS {
            Some(Timestamp { secs, nanos: self.nanos })
        } else {
            None
        }
    }

    /// Midnight of the UTC day that holds `self`; the nanosecond part is kept.
    pub fn start_of_day(&self) -> (r: Timestamp)
        ensures
            r == self.spec_start_of_day(),
            r.spec_secs() == self.spec_secs() - self.spec_secs() % (SECS_PER_DAY as int),
            r.spec_nanos() == self.spec_nanos(),
    {
        proof {
            use_type_invariant(self);
        }
        let rem: i64 = self.secs % SECS_PER_DAY;
        let into_day: i64 = if rem < 0 {
            rem + SECS_PER_DAY
        } else {
            rem
        };
        assert(into_day == self.secs as int % (SECS_PER_DAY as int));
        Timestamp { secs: self.secs - into_day, nanos: self.nanos }
    }
}

/// The year of the UTC calendar date on which the instant `secs` seconds after
/// the epoch falls, as `chrono` computes it.
pub uninterp spec fn civil_year(secs: int) -> int;

/// The month (1 to 12) of that calendar date, as `chrono` computes it.
pub uninterp spec fn civil_month(secs: int) -> int;

/// The day of the month (1 to 31) of that calendar date, as `chrono` computes
/// it.
pub uninterp spec fn civil_day(secs: int) -> int;

/// The text `YYYY-MM-DD` that `chrono` prints for that calendar date.
pub uninterp spec fn civil_date_text(secs: int) -> Seq<char>;

/// The calendar date of the instant written as the year in four digits, the
/// month and the day in two, with `-` between them.
pub open spec fn plain_date_text(secs: int) -> Seq<char> {
    zero_padded(civil_year(secs), 4) + "-"@ + zero_padded(civil_month(secs), 2) + "-"@
        + zero_padded(civil_day(secs), 2)
}

/// Reads the system clock through `chrono::Utc::now` and gives the whole
/// seconds since the epoch and the nanoseconds past them.
///
/// Trusted: the reading lies in `chrono`'s range of instants, which is that
/// of [`Timestamp`], and its nanoseconds are below one second. Nothing else
/// is claimed: two readings need not even be ordered.
#[verifier::external_body]
pub(crate) fn clock_reading() -> (r: (i64, u32))
    ensures
        representable(r.0 as int, r.1 as int),
{
    let t = chrono::Utc::now();
    (t.timestamp(), t.timestamp_subsec_nanos())
}

/// Calls `chrono::Datelike::year` on the instant, taken as a `DateTime<Utc>`.
///
/// Trusted: the result is the calendar year that `chrono` assigns to the
/// instant, which depends on its whole seconds alone.
#[verifier::external_body]
pub(crate) fn utc_year(t: &Timestamp) -> (y: i32)
    ensures
        y == civil_year(t.spec_secs()),
{
    chrono::DateTime::from_timestamp(t.secs, t.nanos).unwrap_or_default().year()
}

/// Calls `chrono::Datelike::month` on the instant, taken as a `DateTime<Utc>`.
///
/// Trusted: the result is the month that `chrono` assigns to the instant, a
/// number from 1 to 12 that depends on its whole seconds alone.
#[verifier::external_body]
pub(crate) fn utc_month(t: &Timestamp) -> (m: u32)
    ensures
        m == civil_month(t.spec_secs()),
        1 <= m <= 12,
{
    chrono::DateTime::from_timestamp(t.secs, t.nanos).unwrap_or_default().month()
}

/// Calls `chrono::Datelike::day` on the instant, taken as a `DateTime<Utc>`.
///
/// Trusted: the result is the day of the month that `chrono` assigns to the
/// instant, a number from 1 to 31 that depends on its whole seconds alone.
#[verifier::external_body]
pub(crate) fn utc_day(t: &Timestamp) -> (d: u32)
    ensures
        d == civil_day(t.spec_secs()),
        1 <= d <= 31,
{
    chrono::DateTime::from_timestamp(t.secs, t.nanos).unwrap_or_default().day()
}

/// Calls `chrono::DateTime::format` with the pattern `%Y-%m-%d` on the
/// instant, taken as a `DateTime<Utc>`.
///
/// Trusted: the text is the one `chrono` prints for the instant's calendar
/// date, which depends on its whole seconds alone; for the years 0 to 9999
/// it is the year in four digits, the month and the day in two, with `-`
/// between them.
#[verifier::external_body]
pub(crate) fn utc_date_text(t: &Timestamp) -> (text: String)
    ensures
        text@ == civil_date_text(t.spec_secs()),
        0 <= civil_year(t.spec_secs()) <= 9999 ==> text@ == plain_date_text(t.spec_secs()),
{
    chrono::DateTime::from_timestamp(t.secs, t.nanos).unwrap_or_default().format("%Y-%m-%d").to_string()
}

/// The text that `chrono` prints under the pattern `%Y-%m-%d %H:%M` for the
/// calendar date and time of day that lie `secs` seconds after the first
/// midnight of 1970.
pub uninterp spec fn civil_minute_text(secs: int) -> Seq<char>;

/// The seconds between the first midnight of 1970 and the calendar date and
/// time of day that `chrono` reads from a text written after the pattern
/// `%Y-%m-%d %H:%M`; `None` where it does not accept the text.
pub uninterp spec fn minute_text_secs(text: Seq<char>) -> Option<int>;

/// Whether `chrono` accepts the text as a date and time written after the
/// pattern `%Y-%m-%d %H:%M`.
pub open spec fn minute_text_parses(text: Seq<char>) -> bool {
    minute_text_secs(text).is_some()
}

/// An instant and the time a clock shows somewhere on earth at that instant,
/// both counted in seconds, are less than a day apart.
pub open spec fn within_a_day(secs: int, local: int) -> bool {
    secs - 86_400 < local < secs + 86_400
}

/// Whether `text` can be what some time zone's clock shows, to the minute,
/// at the instant `secs` seconds after the epoch: it has sixteen characters
/// at least, and it is the text of a date and time less than a day from the
/// instant.
pub open spec fn shows_minute_of(text: Seq<char>, secs: int) -> bool {
    &&& text.len() >= 16
    &&& exists|local: int| #[trigger]
        within_a_day(secs, local) && (representable(local, 0) ==> text == civil_minute_text(
            local,
        ))
}

/// Calls `chrono::DateTime::format` with the pattern `%Y-%m-%d %H:%M` on the
/// instant as seen in the machine's time zone (`chrono::Local`), and reads
/// the zone's offset at that instant, in seconds east of UTC.
///
/// Trusted: the text has sixteen characters at least: a year of four digits
/// or more, month, day, hour and minute of two digits each, and the four
/// separators. The offset is less than a day, and the text is the one that
/// `chrono` prints for the date and time that lie the offset after the
/// instant, where `chrono` can hold them. Which offset it is depends on the
/// time zone the process runs in.
#[verifier::external_body]
pub(crate) fn local_minute_text(t: &Timestamp) -> (r: (String, i32))
    ensures
        r.0@.len() >= 16,
        -86_400 < r.1 < 86_400,
        representable(t.spec_secs() + r.1, 0) ==> r.0@ == civil_minute_text(t.spec_secs() + r.1),
{
    let utc = chrono::DateTime::from_timestamp(t.secs, t.nanos).unwrap_or_default();
    let local = chrono::Local.from_utc_datetime(&utc.naive_utc());
    (local.format("%Y-%m-%d %H:%M").to_string(), local.offset().local_minus_utc())
}

/// Calls `chrono::NaiveDateTime::parse_from_str` with the pattern
/// `%Y-%m-%d %H:%M` and gives the date and time that it read as seconds
/// since the first midnight of 1970; `None` stands for its error.
///
/// Trusted: whether the call succeeds, and what it reads, depends on the
/// text alone.
#[verifier::external_body]
pub(crate) fn parse_minute_text(text: &str) -> (parsed: Option<i64>)
    ensures
        match parsed {
            Some(secs) => minute_text_secs(text@) == Some(secs as int),
            None => minute_text_secs(text@).is_none(),
        },
{
    match chrono::NaiveDateTime::parse_from_str(text, "%Y-%m-%d %H:%M") {
        Ok(parsed) => Some(parsed.and_utc().timestamp()),
        Err(_) => None,
    }
}

/// Calls `chrono::TimeZone::from_local_datetime` on `chrono::Local` with the
/// date and time that lie `local` seconds after the first midnight of 1970,
/// and keeps the instant only where the local time names exactly one: its
/// whole seconds since the epoch and the nanoseconds past them.
///
/// The local time has to be one that `chrono` can hold.
///
/// Trusted: the instant is less than a day from the local time, a time
/// zone's offset being less than a day. Whether there is one, and which,
/// depends on the machine's time zone rules.
#[verifier::external_body]
pub(crate) fn resolve_local(local: i64) -> (r: Option<(i64, u32)>)
    requires
        representable(local as int, 0),
    ensures
        match r {
            Some(instant) => within_a_day(instant.0 as int, local as int),
            None => true,
        },
{
    let naive = chrono::DateTime::from_timestamp(local, 0).unwrap_or_default().naive_utc();
    match chrono::Local.from_local_datetime(&naive) {
        chrono::LocalResult::Single(dt) => Some((dt.timestamp(), dt.timestamp_subsec_nanos())),
        _ => None,
    }
}

/// What a piece of text means as a local date and time.
#[derive(Debug, Clone, Copy, PartialEq, Eq, Structural)]
pub enum LocalTime {
    /// The text is not of the form `YYYY-MM-DD HH:MM`.
    Malformed,
    /// The text is well formed but the machine's time zone has no such local
    /// time, or has it twice, or the instant it names cannot be held.
    Unresolved,
    /// The text names this instant.
    At(Timestamp),
}

/// Whether `meaning` can be what `text` means as a local date and time on
/// some machine: it is malformed exactly where the text is not well formed,
/// and an instant that it names is less than a day from the date and time
/// that the text holds.
pub open spec fn can_mean(text: Seq<char>, meaning: LocalTime) -> bool {
    match minute_text_secs(text) {
        None => meaning == LocalTime::Malformed,
        Some(local) => match meaning {
            LocalTime::Malformed => false,
            LocalTime::Unresolved => true,
            LocalTime::At(t) => within_a_day(t.spec_secs(), local),
        },
    }
}

/// What the time zone made of a well-formed text: no single instant, or the
/// parts of one.
pub open spec fn spec_local_time_of(resolved: Option<(i64, u32)>) -> LocalTime {
    match resolved {
        None => LocalTime::Unresolved,
        Some(parts) => if representable(parts.0 as int, parts.1 as int) {
            LocalTime::At(Timestamp::at(parts.0 as int, parts.1 as int))
        } else {
            LocalTime::Unresolved
        },
    }
}

/// The meaning of a well-formed text, given what the time zone made of it:
/// the instant with the parts that came back, where there is one and it can
/// be held.
#[verifier::when_used_as_spec(spec_local_time_of)]
pub fn local_time_of(resolved: Option<(i64, u32)>) -> (r: LocalTime)
    ensures
        r == spec_local_time_of(resolved),
{
    match resolved {
        None => LocalTime::Unresolved,
        Some((secs, nanos)) => match Timestamp::new(secs, nanos) {
            Some(t) => LocalTime::At(t),
            None => LocalTime::Unresolved,
        },
    }
}

/// Reads `text` as `YYYY-MM-DD HH:MM` in the machine's time zone.
///
/// The text is malformed exactly where `chrono` does not accept it. Whether
/// a well-formed text names an instant, and which, depends on the machine;
/// an instant that it names is less than a day from the date and time that
/// the text holds.
pub fn read_local_minute(text: &str) -> (r: LocalTime)
    ensures
        r == LocalTime::Malformed <==> !minute_text_parses(text@),
        can_mean(text@, r),
{
    match parse_minute_text(text) {
        None => LocalTime::Malformed,
        Some(local) => if MIN_SECS <= local && local <= MAX_SECS {
            local_time_of(resolve_local(local))
        } else {
            LocalTime::Unresolved
        },
    }
}

/// Prints the instant as `YYYY-MM-DD HH:MM` in the machine's time zone.
///
/// Which zone that is depends on the machine. Whatever it is, the text has
/// sixteen characters at least and is the text of a date and time less than
/// a day from the instant.
pub fn write_local_minute(t: &Timestamp) -> (text: String)
    ensures
        text@.len() >= 16,
        shows_minute_of(text@, t.spec_secs()),
{
    let (text, offset) = local_minute_text(t);
    proof {
        assert(within_a_day(t.spec_secs(), t.spec_secs() + offset));
    }
    text
}

/// The UTC calendar date of an instant.
#[derive(Debug, Clone, Copy, PartialEq, Eq, Structural)]
pub struct CivilDate {
    pub year: i32,
    pub month: u32,
    pub day: u32,
}

/// The calendar date that `chrono` assigns to the instant `secs` seconds after
/// the epoch.
pub open spec fn civil_date(secs: int) -> CivilDate {
    CivilDate {
        year: civil_year(secs) as i32,
        month: civil_month(secs) as u32,
        day: civil_day(secs) as u32,
    }
}

impl Timestamp {
    /// The first day of the month that holds `self`, at the same time of day:
    /// as many days back as the day of the month says. `None` where that day
    /// is not representable.
    pub open spec fn spec_first_of_month(self) -> Option<Timestamp> {
        self.spec_checked_sub_days(civil_day(self.spec_secs()) - 1)
    }

    /// Midnight of the first day of the month that holds `self`, or `None`
    /// where that day is not representable.
    pub open spec fn spec_start_of_month(self) -> Option<Timestamp> {
        match self.spec_first_of_month() {
            Some(first) => Some(first.spec_start_of_day()),
            None => None,
        }
    }

    /// The UTC calendar date of the instant.
    pub fn date(&self) -> (d: CivilDate)
        ensures
            d == civil_date(self.spec_secs()),
            d.year == civil_year(self.spec_secs()),
            d.month == civil_month(self.spec_secs()),
            d.day == civil_day(self.spec_secs()),
            1 <= d.month <= 12,
            1 <= d.day <= 31,
    {
        CivilDate { year: utc_year(self), month: utc_month(self), day: utc_day(self) }
    }

    /// The UTC calendar date of the instant as `YYYY-MM-DD`.
    pub fn date_text(&self) -> (text: String)
        ensures
            text@ == civil_date_text(self.spec_secs()),
            0 <= civil_year(self.spec_secs()) <= 9999 ==> text@ == plain_date_text(
                self.spec_secs(),
            ),
    {
        utc_date_text(self)
    }

    /// The first day of the instant's month at the same time of day, or `None`
    /// where that day is not representable.
    pub fn first_of_month(&self) -> (r: Option<Timestamp>)
        ensures
            r == self.spec_first_of_month(),
    {
        let day: u32 = utc_day(self);
        self.checked_sub_days(day - 1)
    }

    /// Midnight of the first day of the instant's month.
    pub fn start_of_month(&self) -> (r: Option<Timestamp>)
        ensures
            r == self.spec_start_of_month(),
    {
        match self.first_of_month() {
            Some(first) => Some(first.start_of_day()),
            None => None,
        }
    }
}

} // verus!
