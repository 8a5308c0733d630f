use vstd::prelude::*;
use chrono::{Datelike, TimeZone};

verus! {

/// The smallest year that a date can have.
pub const MIN_YEAR: i32 = -262143;

/// The largest year that a date can have.
pub const MAX_YEAR: i32 = 262142;

pub open spec fn is_leap_year(y: int) -> bool {
    (y % 4 == 0 && y % 100 != 0) || y % 400 == 0
}

pub open spec fn days_in_month(y: int, m: int) -> int {
    if m == 2 {
        if is_leap_year(y) { 29 } else { 28 }
    } else if m == 4 || m == 6 || m == 9 || m == 11 {
        30
    } else {
        31
    }
}

/// A day of the proleptic Gregorian calendar within the supported years.
pub open spec fn is_valid_date(y: int, m: int, d: int) -> bool {
    &&& MIN_YEAR <= y <= MAX_YEAR
    &&& 1 <= m <= 12
    &&& 1 <= d <= days_in_month(y, m)
}

/// The decimal digit for `n`, which is below ten.
pub open spec fn digit_char(n: int) -> char {
    if n == 0 { '0' }
    else if n == 1 { '1' }
    else if n == 2 { '2' }
    else if n == 3 { '3' }
    else if n == 4 { '4' }
    else if n == 5 { '5' }
    else if n == 6 { '6' }
    else if n == 7 { '7' }
    else if n == 8 { '8' }
    else { '9' }
}

/// `n` in decimal, left-padded with zeros to `width` digits.
pub open spec fn padded(n: nat, width: nat) -> Seq<char>
    decreases width,
{
    if width == 0 {
        Seq::empty()
    } else {
        padded(n / 10, (width - 1) as nat).push(digit_char((n % 10) as int))
    }
}

/// The `YYYY-MM-DD` form of a date whose year has at most four digits.
pub open spec fn iso_date_text(y: nat, m: nat, d: nat) -> Seq<char> {
    padded(y, 4) + seq!['-'] + padded(m, 2) + seq!['-'] + padded(d, 2)
}

/// The year, month and day of the day `days` after 1970-01-01 (before it,
/// for a negative `days`) in the proleptic Gregorian calendar.
pub open spec fn civil_from_days(days: int) -> (int, int, int) {
    let z = days + 719468;
    let era = z / 146097;
    let doe = z % 146097;
    let yoe = (doe - doe / 1460 + doe / 36524 - doe / 146096) / 365;
    let doy = doe - (365 * yoe + yoe / 4 - yoe / 100);
    let mp = (5 * doy + 2) / 153;
    let d = doy - (153 * mp + 2) / 5 + 1;
    let m = if mp < 10 { mp + 3 } else { mp - 9 };
    let y = yoe + era * 400 + if m <= 2 { 1int } else { 0int };
    (y, m, d)
}

/// The fraction of a second as RFC 3339 text: none for a whole second,
/// else 3, 6 or 9 digits, the fewest that hold every non-zero digit.
pub open spec fn fraction_text(nanos: nat) -> Seq<char> {
    if nanos == 0 {
        Seq::empty()
    } else if nanos % 1_000_000 == 0 {
        seq!['.'] + padded(nanos / 1_000_000, 3)
    } else if nanos % 1000 == 0 {
        seq!['.'] + padded(nanos / 1000, 6)
    } else {
        seq!['.'] + padded(nanos, 9)
    }
}

/// The first instant of year 0, in seconds after the epoch.
pub const FIRST_SECOND_OF_YEAR_0: i64 = -62_167_219_200;

/// The last second of year 9999, in seconds after the epoch.
pub const LAST_SECOND_OF_YEAR_9999: i64 = 253_402_300_799;

/// The RFC 3339 text in UTC of an instant in the years 0 to 9999:
/// `YYYY-MM-DDTHH:MM:SS`, the fraction, and `Z`.
pub open spec fn rfc3339_text(secs: int, nanos: nat) -> Seq<char> {
    let (y, m, d) = civil_from_days(secs / 86400);
    let sod = secs % 86400;
    iso_date_text(y as nat, m as nat, d as nat) + seq!['T'] + padded((sod / 3600) as nat, 2) + seq![':']
        + padded(((sod % 3600) / 60) as nat, 2) + seq![':'] + padded((sod % 60) as nat, 2) + fraction_text(
        nanos,
    ) + seq!['Z']
}

/// Whether an instant lies in the years 0 to 9999 and in no leap second.
pub open spec fn in_four_digit_years(secs: i64, nanos: u32) -> bool {
    FIRST_SECOND_OF_YEAR_0 <= secs <= LAST_SECOND_OF_YEAR_9999 && nanos < 1_000_000_000
}

/// What chrono writes for a date (the `YYYY-MM-DD` form, with a sign and
/// more digits for years outside 0 to 9999).
pub uninterp spec fn date_text_of(y: i32, m: u32, d: u32) -> Seq<char>;

/// The year, month and day that chrono reads from a text, if it reads a
/// date there.
pub uninterp spec fn date_parsed(s: Seq<char>) -> Option<(i32, u32, u32)>;

/// Whether chrono has a UTC instant at `secs` seconds and `nanos`
/// nanoseconds after the epoch.
pub uninterp spec fn utc_representable(secs: i64, nanos: u32) -> bool;

/// The RFC 3339 text that chrono writes for a UTC instant.
pub uninterp spec fn timestamp_text_of(secs: i64, nanos: u32) -> Seq<char>;

/// The instant, as seconds and nanoseconds after the epoch, that chrono
/// reads from an RFC 3339 text, if it reads one there.
pub uninterp spec fn timestamp_parsed(s: Seq<char>) -> Option<(i64, u32)>;

/// Whether `t` is a date of the years 0 to 9999 whose `YYYY-MM-DD` text is `s`.
pub open spec fn is_iso_date(t: (i32, u32, u32), s: Seq<char>) -> bool {
    0 <= t.0 <= 9999 && is_valid_date(t.0 as int, t.1 as int, t.2 as int) && iso_date_text(
        t.0 as nat,
        t.1 as nat,
        t.2 as nat,
    ) == s
}

/// Ten to the power `w`.
pub open spec fn pow10(w: nat) -> nat
    decreases w,
{
    if w == 0 {
        1
    } else {
        10 * pow10((w - 1) as nat)
    }
}

/// A padded number has as many digits as its width.
pub proof fn padded_len(n: nat, w: nat)
    ensures
        padded(n, w).len() == w,
    decreases w,
{
    if w > 0 {
        padded_len(n / 10, (w - 1) as nat);
    }
}

/// Numbers below ten to the width have distinct padded texts.
pub proof fn padded_injective(a: nat, b: nat, w: nat)
    requires
        a < pow10(w),
        b < pow10(w),
        padded(a, w) == padded(b, w),
    ensures
        a == b,
    decreases w,
{
    if w > 0 {
        let pa = padded(a / 10, (w - 1) as nat);
        let pb = padded(b / 10, (w - 1) as nat);
        padded_len(a / 10, (w - 1) as nat);
        padded_len(b / 10, (w - 1) as nat);
        assert(padded(a, w).last() == digit_char((a % 10) as int));
        assert(padded(b, w).last() == digit_char((b % 10) as int));
        assert(pa =~= padded(a, w).drop_last());
        assert(pb =~= padded(b, w).drop_last());
        padded_injective(a / 10, b / 10, (w - 1) as nat);
    }
}

/// Dates of the years 0 to 9999 have distinct texts.
pub proof fn iso_date_injective(t: (i32, u32, u32), u: (i32, u32, u32), s: Seq<char>)
    requires
        is_iso_date(t, s),
        is_iso_date(u, s),
    ensures
        t == u,
{
    padded_len(t.0 as nat, 4);
    padded_len(t.1 as nat, 2);
    padded_len(t.2 as nat, 2);
    padded_len(u.0 as nat, 4);
    padded_len(u.1 as nat, 2);
    padded_len(u.2 as nat, 2);
    assert(pow10(4) == 10000) by {
        reveal_with_fuel(pow10, 5);
    }
    assert(pow10(2) == 100) by {
        reveal_with_fuel(pow10, 3);
    }
    assert(s.subrange(0, 4) =~= padded(t.0 as nat, 4));
    assert(s.subrange(0, 4) =~= padded(u.0 as nat, 4));
    assert(s.subrange(5, 7) =~= padded(t.1 as nat, 2));
    assert(s.subrange(5, 7) =~= padded(u.1 as nat, 2));
    assert(s.subrange(8, 10) =~= padded(t.2 as nat, 2));
    assert(s.subrange(8, 10) =~= padded(u.2 as nat, 2));
    padded_injective(t.0 as nat, u.0 as nat, 4);
    padded_injective(t.1 as nat, u.1 as nat, 2);
    padded_injective(t.2 as nat, u.2 as nat, 2);
}

/// A calendar date, with no time of day and no time zone.
#[derive(Clone, Copy, Debug, PartialEq, Eq, Structural)]
pub struct Date {
    year: i32,
    month: u32,
    day: u32,
}

/// Relies on chrono's `NaiveDate::from_ymd_opt`: a date exists for exactly
/// the valid year, month and day triples of the supported years.
#[verifier::external_body]
fn chrono_date_exists(year: i32, month: u32, day: u32) -> (r: bool)
    ensures
        r == is_valid_date(year as int, month as int, day as int),
{
    chrono::NaiveDate::from_ymd_opt(year, month, day).is_some()
}

/// Relies on chrono's `Debug` rendering of `NaiveDate`, which its serde
/// support writes on the wire.
#[verifier::external_body]
fn chrono_date_text(year: i32, month: u32, day: u32) -> (r: String)
    requires
        is_valid_date(year as int, month as int, day as int),
    ensures
        r@ == date_text_of(year, month, day),
        0 <= year <= 9999 ==> r@ == iso_date_text(year as nat, month as nat, day as nat),
{
    format!("{:?}", chrono::NaiveDate::from_ymd_opt(year, month, day).unwrap())
}

/// Relies on chrono's `FromStr` for `NaiveDate`, which its serde support
/// uses to read a date.
#[verifier::external_body]
fn chrono_parse_date(s: &str) -> (r: Option<(i32, u32, u32)>)
    ensures
        r == date_parsed(s@),
        r matches Some(t) ==> is_valid_date(t.0 as int, t.1 as int, t.2 as int),
        forall|y: i32, m: u32, d: u32|
            0 <= y <= 9999 && is_valid_date(y as int, m as int, d as int) && s@ == #[trigger] iso_date_text(
                y as nat,
                m as nat,
                d as nat,
            ) ==> r == Some((y, m, d)),
{
    s.parse::<chrono::NaiveDate>().ok().map(|d| (d.year(), d.month(), d.day()))
}

impl Date {
    #[verifier::type_invariant]
    spec fn inv(self) -> bool {
        is_valid_date(self.year as int, self.month as int, self.day as int)
    }

    pub closed spec fn spec_year(self) -> i32 {
        self.year
    }

    pub closed spec fn spec_month(self) -> u32 {
        self.month
    }

    pub closed spec fn spec_day(self) -> u32 {
        self.day
    }

    /// The date with the given year, month and day, if there is one.
    pub fn from_ymd(year: i32, month: u32, day: u32) -> (r: Option<Date>)
        ensures
            r is Some <==> is_valid_date(year as int, month as int, day as int),
            r matches Some(d) ==> d.spec_year() == year && d.spec_month() == month
                && d.spec_day() == day,
    {
        if chrono_date_exists(year, month, day) {
            Some(Date { year, month, day })
        } else {
            None
        }
    }

    pub fn year(&self) -> (r: i32)
        ensures
            r == self.spec_year(),
    {
        self.year
    }

    pub fn month(&self) -> (r: u32)
        ensures
            r == self.spec_month(),
    {
        self.month
    }

    pub fn day(&self) -> (r: u32)
        ensures
            r == self.spec_day(),
    {
        self.day
    }

    /// The date as the service writes it.
    pub fn to_text(&self) -> (r: String)
        ensures
            r@ == date_text_of(self.spec_year(), self.spec_month(), self.spec_day()),
            0 <= self.spec_year() <= 9999 ==> r@ == iso_date_text(
                self.spec_year() as nat,
                self.spec_month() as nat,
                self.spec_day() as nat,
            ),
    {
        proof {
            use_type_invariant(self);
        }
        chrono_date_text(self.year, self.month, self.day)
    }

    /// Reads a date written as the service writes it.
    pub fn parse(s: &str) -> (r: Option<Date>)
        ensures
            forall|y: i32, m: u32, d: u32|
                0 <= y <= 9999 && is_valid_date(y as int, m as int, d as int) && s@ == #[trigger] iso_date_text(
                    y as nat,
                    m as nat,
                    d as nat,
                ) ==> (r matches Some(x) && x.spec_year() == y && x.spec_month() == m && x.spec_day() == d),
            match date_parsed(s@) {
                Some(t) => r matches Some(d) && d.spec_year() == t.0 && d.spec_month() == t.1
                    && d.spec_day() == t.2,
                None => r is None,
            },
    {
        match chrono_parse_date(s) {
            Some(t) => Some(Date { year: t.0, month: t.1, day: t.2 }),
            None => None,
        }
    }
}

/// An instant in UTC: whole seconds after the epoch and the nanoseconds
/// within that second.
#[derive(Clone, Copy, Debug, PartialEq, Eq, Structural)]
pub struct Timestamp {
    secs: i64,
    nanos: u32,
}

/// The outcome of looking an instant up in a time zone: no such instant,
/// exactly one, or two candidates.
#[derive(Clone, Copy, Debug)]
pub enum LocalTime {
    Missing,
    Single(Timestamp),
    Ambiguous(Timestamp, Timestamp),
}

/// Relies on chrono's `TimeZone::timestamp_opt` for `Utc`, which never
/// yields two candidates and yields one exactly where the instant exists.
#[verifier::external_body]
fn chrono_utc_timestamp(secs: i64, nanos: u32) -> (r: LocalTime)
    ensures
        !(r is Ambiguous),
        r is Single <==> utc_representable(secs, nanos),
        r matches LocalTime::Single(t) ==> t.spec_secs() == secs && t.spec_nanos() == nanos,
        nanos >= 2_000_000_000 ==> r is Missing,
        0 <= secs <= 253_402_300_799 && nanos < 1_000_000_000 ==> r is Single,
{
    match chrono::Utc.timestamp_opt(secs, nanos) {
        chrono::offset::LocalResult::None => LocalTime::Missing,
        chrono::offset::LocalResult::Single(_) => LocalTime::Single(Timestamp { secs, nanos }),
        chrono::offset::LocalResult::Ambiguous(a, b) => LocalTime::Ambiguous(
            Timestamp { secs: a.timestamp(), nanos: a.timestamp_subsec_nanos() },
            Timestamp { secs: b.timestamp(), nanos: b.timestamp_subsec_nanos() },
        ),
    }
}

/// Relies on chrono's RFC 3339 rendering of `DateTime<Utc>` (seconds format
/// chosen by the fraction, `Z` for UTC), which its serde support writes.
#[verifier::external_body]
fn chrono_timestamp_text(secs: i64, nanos: u32) -> (r: String)
    requires
        utc_representable(secs, nanos),
    ensures
        r@ == timestamp_text_of(secs, nanos),
        in_four_digit_years(secs, nanos) ==> r@ == rfc3339_text(secs as int, nanos as nat),
{
    chrono::DateTime::from_timestamp(secs, nanos)
        .unwrap()
        .to_rfc3339_opts(chrono::SecondsFormat::AutoSi, true)
}

/// Relies on chrono's `FromStr` for `DateTime<FixedOffset>` and its
/// conversion to UTC, which its serde support uses to read an instant.
#[verifier::external_body]
fn chrono_parse_timestamp(s: &str) -> (r: Option<(i64, u32)>)
    ensures
        r == timestamp_parsed(s@),
        r matches Some(t) ==> utc_representable(t.0, t.1),
        forall|secs: i64, nanos: u32|
            in_four_digit_years(secs, nanos) && s@ == #[trigger] rfc3339_text(secs as int, nanos as nat) ==> r == Some(
                (secs, nanos),
            ),
{
    s.parse::<chrono::DateTime<chrono::FixedOffset>>()
        .ok()
        .map(|d| (d.timestamp(), d.timestamp_subsec_nanos()))
}

impl Timestamp {
    #[verifier::type_invariant]
    spec fn inv(self) -> bool {
        utc_representable(self.secs, self.nanos)
    }

    pub closed spec fn spec_secs(self) -> i64 {
        self.secs
    }

    pub closed spec fn spec_nanos(self) -> u32 {
        self.nanos
    }

    /// The instant `secs` seconds and `nanos` nanoseconds after the epoch,
    /// if there is one.
    pub fn from_unix(secs: i64, nanos: u32) -> (r: LocalTime)
        ensures
            !(r is Ambiguous),
            !(r is Single) ==> r is Missing,
            r is Single <==> utc_representable(secs, nanos),
            r matches LocalTime::Single(t) ==> t.spec_secs() == secs && t.spec_nanos() == nanos,
            0 <= secs <= 253_402_300_799 && nanos < 1_000_000_000 ==> r is Single,
    {
        chrono_utc_timestamp(secs, nanos)
    }

    pub fn secs(&self) -> (r: i64)
        ensures
            r == self.spec_secs(),
    {
        self.secs
    }

    pub fn nanos(&self) -> (r: u32)
        ensures
            r == self.spec_nanos(),
    {
        self.nanos
    }

    /// The instant as RFC 3339 text in UTC.
    pub fn to_text(&self) -> (r: String)
        ensures
            r@ == timestamp_text_of(self.spec_secs(), self.spec_nanos()),
            in_four_digit_years(self.spec_secs(), self.spec_nanos()) ==> r@ == rfc3339_text(
                self.spec_secs() as int,
                self.spec_nanos() as nat,
            ),
    {
        proof {
            use_type_invariant(self);
        }
        chrono_timestamp_text(self.secs, self.nanos)
    }

    /// Reads an RFC 3339 instant; one with an offset is moved to UTC.
    pub fn parse(s: &str) -> (r: Option<Timestamp>)
        ensures
            forall|secs: i64, nanos: u32|
                in_four_digit_years(secs, nanos) && s@ == #[trigger] rfc3339_text(secs as int, nanos as nat) ==> (r matches Some(
                    ts,
                ) && ts.spec_secs() == secs && ts.spec_nanos() == nanos),
            match timestamp_parsed(s@) {
                Some(t) => r matches Some(ts) && ts.spec_secs() == t.0 && ts.spec_nanos() == t.1,
                None => r is None,
            },
    {
        match chrono_parse_timestamp(s) {
            Some(t) => Some(Timestamp { secs: t.0, nanos: t.1 }),
            None => None,
        }
    }
}

} // verus!
