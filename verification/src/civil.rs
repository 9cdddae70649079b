//! The proleptic Gregorian calendar as a count of days.
//!
//! A [`Date`] is a day number: the count of days with 1 January of year 1 as
//! day 1. The year, month and day of a date are the unique calendar triple
//! with that day number.

use crate::text::{
    decimal, decimal_string, four_digit_string, four_digits, two_digit_string, two_digits,
};
use chrono::Datelike;
use vstd::prelude::*;
use vstd::string::StringExecFns;

verus! {

/// The first year that a [`Date`] can lie in.
pub const MIN_YEAR: i32 = -262143;

/// The last year that a [`Date`] can lie in.
pub const MAX_YEAR: i32 = 262142;

/// The day number of 1 January of [`MIN_YEAR`].
pub const MIN_DAY_NUMBER: i32 = -95746129;

/// The day number of 31 December of [`MAX_YEAR`].
pub const MAX_DAY_NUMBER: i32 = 95745399;

/// The day number of 1 January 1970.
pub const UNIX_EPOCH_DAY: i32 = 719163;

/// The number of seconds in a day.
pub const SECONDS_PER_DAY: i64 = 86400;

/// The timestamp of the first second of the first representable day.
pub const MIN_TIMESTAMP: i64 = -8334601228800;

/// The timestamp of the last second of the last representable day.
pub const MAX_TIMESTAMP: i64 = 8210266876799;

/// Whether `year` has a 29 February.
pub open spec fn is_leap_year(year: int) -> bool {
    year % 4 == 0 && (year % 100 != 0 || year % 400 == 0)
}

/// The number of days of `month` in `year`.
pub open spec fn days_in_month(year: int, month: int) -> int {
    if month == 2 {
        if is_leap_year(year) {
            29
        } else {
            28
        }
    } else if month == 4 || month == 6 || month == 9 || month == 11 {
        30
    } else {
        31
    }
}

/// Whether the triple names a day that exists in the calendar.
pub open spec fn is_civil_date(year: int, month: int, day: int) -> bool {
    1 <= month <= 12 && 1 <= day <= days_in_month(year, month)
}

/// The number of days in the years before `year`, counted from year 1.
pub open spec fn days_before_year(year: int) -> int {
    let y = year - 1;
    365 * y + y / 4 - y / 100 + y / 400
}

/// The number of days of `year` that lie in the months before `month`.
pub open spec fn days_before_month(year: int, month: int) -> int
    decreases month,
{
    if month <= 1 {
        0
    } else {
        days_before_month(year, month - 1) + days_in_month(year, month - 1)
    }
}

/// The day number of a calendar triple: 1 January of year 1 is day 1.
pub open spec fn day_number(year: int, month: int, day: int) -> int {
    days_before_year(year) + days_before_month(year, month) + day
}

/// The number of days of `year`.
pub open spec fn days_in_year(year: int) -> int {
    if is_leap_year(year) {
        366
    } else {
        365
    }
}

/// The days before each month, written out.
pub proof fn lemma_days_before_month(year: int, month: int)
    requires
        1 <= month <= 13,
    ensures
        days_before_month(year, month) == (if month == 1 {
            0int
        } else if month == 2 {
            31
        } else {
            (if is_leap_year(year) {
                1int
            } else {
                0
            }) + (if month == 3 {
                59int
            } else if month == 4 {
                90
            } else if month == 5 {
                120
            } else if month == 6 {
                151
            } else if month == 7 {
                181
            } else if month == 8 {
                212
            } else if month == 9 {
                243
            } else if month == 10 {
                273
            } else if month == 11 {
                304
            } else if month == 12 {
                334
            } else {
                365
            })
        }),
{
    reveal_with_fuel(days_before_month, 14);
}

/// A year's days follow those of the year before it.
pub proof fn lemma_days_before_next_year(year: int)
    ensures
        days_before_year(year + 1) == days_before_year(year) + days_in_year(year),
{
    let by4: int = if year % 4 == 0 { 1 } else { 0 };
    let by100: int = if year % 100 == 0 { 1 } else { 0 };
    let by400: int = if year % 400 == 0 { 1 } else { 0 };
    assert(year / 4 == (year - 1) / 4 + by4);
    assert(year / 100 == (year - 1) / 100 + by100);
    assert(year / 400 == (year - 1) / 400 + by400);
    assert(year % 100 == 0 ==> year % 4 == 0);
    assert(year % 400 == 0 ==> year % 100 == 0);
}

/// The years from `a` to `b` hold at least 365 days each.
pub proof fn lemma_days_before_year_grows(a: int, b: int)
    requires
        a <= b,
    ensures
        days_before_year(a) + 365 * (b - a) <= days_before_year(b),
    decreases b - a,
{
    if a < b {
        lemma_days_before_year_grows(a, b - 1);
        lemma_days_before_next_year(b - 1);
    }
}

/// Within its year a calendar day is numbered from 1 to the year's length.
pub proof fn lemma_day_of_year_bounds(year: int, month: int, day: int)
    requires
        is_civil_date(year, month, day),
    ensures
        1 <= days_before_month(year, month) + day <= days_before_month(year, month + 1),
        days_before_month(year, month + 1) <= days_in_year(year),
{
    lemma_days_before_month(year, month);
    lemma_days_before_month(year, month + 1);
}

/// Earlier in the calendar means a smaller day number, and the reverse.
pub proof fn lemma_day_number_order(y1: int, m1: int, d1: int, y2: int, m2: int, d2: int)
    requires
        is_civil_date(y1, m1, d1),
        is_civil_date(y2, m2, d2),
    ensures
        day_number(y1, m1, d1) < day_number(y2, m2, d2) <==> (y1 < y2 || (y1 == y2 && (m1 < m2 || (
        m1 == m2 && d1 < d2)))),
        day_number(y1, m1, d1) == day_number(y2, m2, d2) <==> (y1 == y2 && m1 == m2 && d1 == d2),
{
    lemma_day_of_year_bounds(y1, m1, d1);
    lemma_day_of_year_bounds(y2, m2, d2);
    lemma_days_before_month(y1, m1);
    lemma_days_before_month(y2, m2);
    if y1 < y2 {
        lemma_days_before_next_year(y1);
        lemma_days_before_year_grows(y1 + 1, y2);
    } else if y2 < y1 {
        lemma_days_before_next_year(y2);
        lemma_days_before_year_grows(y2 + 1, y1);
    }
}

/// The day numbers of the representable years run from [`MIN_DAY_NUMBER`] to
/// [`MAX_DAY_NUMBER`].
pub proof fn lemma_day_number_range(year: int, month: int, day: int)
    requires
        is_civil_date(year, month, day),
    ensures
        MIN_YEAR <= year <= MAX_YEAR <==> MIN_DAY_NUMBER <= day_number(year, month, day)
            <= MAX_DAY_NUMBER,
{
    lemma_days_before_month(MIN_YEAR as int, 1);
    lemma_days_before_month(MAX_YEAR as int, 12);
    assert(day_number(MIN_YEAR as int, 1, 1) == MIN_DAY_NUMBER);
    assert(day_number(MAX_YEAR as int, 12, 31) == MAX_DAY_NUMBER);
    lemma_day_number_order(year, month, day, MIN_YEAR as int, 1, 1);
    lemma_day_number_order(year, month, day, MAX_YEAR as int, 12, 31);
}

/// A year, a month and a day of the month, as integers.
pub struct Civil {
    pub year: int,
    pub month: int,
    pub day: int,
}

impl Civil {
    /// Whether the triple names a day that exists in the calendar.
    pub open spec fn is_valid(self) -> bool {
        is_civil_date(self.year, self.month, self.day)
    }

    /// The day number of the triple.
    pub open spec fn day_number(self) -> int {
        day_number(self.year, self.month, self.day)
    }
}

/// The calendar triple of day number `n`.
pub open spec fn civil_of(n: int) -> Civil {
    choose|c: Civil| c.is_valid() && c.day_number() == n
}

/// A valid triple is the calendar triple of its own day number.
pub proof fn lemma_civil_of_day_number(c: Civil)
    requires
        c.is_valid(),
    ensures
        civil_of(c.day_number()) == c,
{
    let found = civil_of(c.day_number());
    assert(found.is_valid() && found.day_number() == c.day_number());
    lemma_day_number_order(found.year, found.month, found.day, c.year, c.month, c.day);
}

/// `chrono::NaiveDate::from_ymd_opt`, read back as a day count with
/// `Datelike::num_days_from_ce`: there is a date exactly for the triples
/// that name an existing day in a representable year, and its count is that
/// of the days of the proleptic Gregorian calendar with 1 January of year 1
/// as day 1.
#[verifier::external_body]
fn chrono_day_number(year: i32, month: u32, day: u32) -> (r: Option<i32>)
    ensures
        r is Some <==> (is_civil_date(year as int, month as int, day as int) && MIN_YEAR <= year
            <= MAX_YEAR),
        r matches Some(n) ==> n == day_number(year as int, month as int, day as int),
{
    match chrono::NaiveDate::from_ymd_opt(year, month, day) {
        Some(d) => Some(d.num_days_from_ce()),
        None => None,
    }
}

/// `chrono::NaiveDate::from_num_days_from_ce_opt`, read back with
/// `Datelike::year`, `month` and `day`: there is a date exactly for the day
/// counts of the representable range, and it is the existing calendar day
/// with that count.
#[verifier::external_body]
fn chrono_civil(days: i32) -> (r: Option<(i32, u32, u32)>)
    ensures
        r is Some <==> (MIN_DAY_NUMBER <= days <= MAX_DAY_NUMBER),
        r matches Some(t) ==> is_civil_date(t.0 as int, t.1 as int, t.2 as int),
        r matches Some(t) ==> day_number(t.0 as int, t.1 as int, t.2 as int) == days,
{
    match chrono::NaiveDate::from_num_days_from_ce_opt(days) {
        Some(d) => Some((d.year(), d.month(), d.day())),
        None => None,
    }
}

/// A year as text: four digits, with leading zeros, for the years 0 to
/// 9999; for any other year its sign and at least four digits.
pub open spec fn year_text(year: int) -> Seq<char> {
    if 0 <= year <= 9999 {
        four_digits(year)
    } else {
        let size = if year < 0 {
            -year
        } else {
            year
        };
        let sign = if year < 0 {
            '-'
        } else {
            '+'
        };
        if size <= 9999 {
            seq![sign] + four_digits(size)
        } else {
            seq![sign] + decimal(size as nat)
        }
    }
}

/// A day as text: the year, the month and the day of the month, the last
/// two with two digits, with hyphens between them.
pub open spec fn date_text(c: Civil) -> Seq<char> {
    year_text(c.year) + seq!['-'] + two_digits(c.month) + seq!['-'] + two_digits(c.day)
}

/// The day of the week.
#[derive(Clone, Copy, Debug, PartialEq, Eq, Structural, Hash)]
pub enum Weekday {
    Mon,
    Tue,
    Wed,
    Thu,
    Fri,
    Sat,
    Sun,
}

/// The weekday of day number `n`: day 1 is a Monday.
pub open spec fn weekday_of(n: int) -> Weekday {
    let k = (n + 6) % 7;
    if k == 0 {
        Weekday::Mon
    } else if k == 1 {
        Weekday::Tue
    } else if k == 2 {
        Weekday::Wed
    } else if k == 3 {
        Weekday::Thu
    } else if k == 4 {
        Weekday::Fri
    } else if k == 5 {
        Weekday::Sat
    } else {
        Weekday::Sun
    }
}

/// A day of the proleptic Gregorian calendar, from 1 January of [`MIN_YEAR`]
/// to 31 December of [`MAX_YEAR`].
#[derive(Clone, Copy, Debug, PartialEq, Eq, Structural, Hash)]
pub struct Date {
    days: i32,
}

impl View for Date {
    type V = int;

    /// The day number.
    closed spec fn view(&self) -> int {
        self.days as int
    }
}

impl Date {
    /// Every date lies in the representable range.
    #[verifier::type_invariant]
    pub open spec fn in_range(self) -> bool {
        MIN_DAY_NUMBER <= self@ <= MAX_DAY_NUMBER
    }

    /// The year, month and day of the date.
    pub open spec fn civil(self) -> Civil {
        civil_of(self@)
    }

    /// The date with the day number `n`.
    pub closed spec fn of_day(n: int) -> Date {
        Date { days: n as i32 }
    }

    /// A date is the date with its own day number.
    pub proof fn lemma_of_day(self)
        ensures
            Date::of_day(self@) == self,
    {
    }

    /// Two dates with the same day number are the same date.
    pub proof fn lemma_same_day(self, other: Date)
        requires
            self@ == other@,
        ensures
            self == other,
    {
    }

    /// The date of a year, month and day, if that day exists and its year is
    /// representable.
    pub fn from_ymd_opt(year: i32, month: u32, day: u32) -> (r: Option<Date>)
        ensures
            r is Some <==> is_civil_date(year as int, month as int, day as int) && MIN_YEAR
                <= year <= MAX_YEAR,
            r matches Some(d) ==> d@ == day_number(year as int, month as int, day as int),
    {
        match chrono_day_number(year, month, day) {
            Some(days) => {
                proof {
                    lemma_day_number_range(year as int, month as int, day as int);
                }
                Some(Date { days })
            },
            None => None,
        }
    }

    /// The date with the given day number, if it is representable.
    pub fn from_num_days_from_ce_opt(days: i32) -> (r: Option<Date>)
        ensures
            r is Some <==> MIN_DAY_NUMBER <= days <= MAX_DAY_NUMBER,
            r matches Some(d) ==> d@ == days,
    {
        if MIN_DAY_NUMBER <= days && days <= MAX_DAY_NUMBER {
            Some(Date { days })
        } else {
            None
        }
    }

    /// The day number: the count of days with 1 January of year 1 as day 1.
    pub fn num_days_from_ce(&self) -> (r: i32)
        ensures
            r == self@,
            MIN_DAY_NUMBER <= r <= MAX_DAY_NUMBER,
    {
        proof {
            use_type_invariant(self);
        }
        self.days
    }

    /// The year, month and day of the date.
    pub fn ymd(&self) -> (r: (i32, u32, u32))
        ensures
            self.civil() == (Civil { year: r.0 as int, month: r.1 as int, day: r.2 as int }),
            self.civil().is_valid(),
            self.civil().day_number() == self@,
            MIN_YEAR <= r.0 <= MAX_YEAR,
    {
        proof {
            use_type_invariant(self);
        }
        let t = chrono_civil(self.days).unwrap();
        proof {
            let c = Civil { year: t.0 as int, month: t.1 as int, day: t.2 as int };
            lemma_civil_of_day_number(c);
            lemma_day_number_range(c.year, c.month, c.day);
        }
        t
    }

    /// The year of the date.
    pub fn year(&self) -> (r: i32)
        ensures
            r == self.civil().year,
    {
        self.ymd().0
    }

    /// The month of the date, from 1 to 12.
    pub fn month(&self) -> (r: u32)
        ensures
            r == self.civil().month,
            1 <= r <= 12,
    {
        self.ymd().1
    }

    /// The day of the month, from 1 to 31.
    pub fn day(&self) -> (r: u32)
        ensures
            r == self.civil().day,
            1 <= r <= 31,
    {
        self.ymd().2
    }

    /// The date as text, such as `2024-03-11`.
    pub fn to_text(&self) -> (r: String)
        ensures
            r@ == date_text(self.civil()),
    {
        let (year, month, day) = self.ymd();
        let mut out = String::new();
        if 0 <= year && year <= 9999 {
            out.append(four_digit_string(year as u32).as_str());
        } else {
            let size: u32 = if year < 0 {
                (-(year as i64)) as u32
            } else {
                year as u32
            };
            if year < 0 {
                out.append("-");
            } else {
                out.append("+");
            }
            if size <= 9999 {
                out.append(four_digit_string(size).as_str());
            } else {
                out.append(decimal_string(size as i128).as_str());
            }
        }
        out.append("-");
        out.append(two_digit_string(month).as_str());
        out.append("-");
        out.append(two_digit_string(day).as_str());
        proof {
            reveal_strlit("-");
            reveal_strlit("+");
            assert("-"@ == seq!['-']);
            assert("+"@ == seq!['+']);
        }
        out
    }

    /// The day of the week.
    pub fn weekday(&self) -> (r: Weekday)
        ensures
            r == weekday_of(self@),
    {
        proof {
            use_type_invariant(self);
        }
        // 95746133 is a multiple of 7 that lifts every day number above zero.
        let k: i64 = (self.days as i64 + 6 + 95746133) % 7;
        if k == 0 {
            Weekday::Mon
        } else if k == 1 {
            Weekday::Tue
        } else if k == 2 {
            Weekday::Wed
        } else if k == 3 {
            Weekday::Thu
        } else if k == 4 {
            Weekday::Fri
        } else if k == 5 {
            Weekday::Sat
        } else {
            Weekday::Sun
        }
    }

    /// The next day, unless this is the last representable one.
    pub fn succ_opt(&self) -> (r: Option<Date>)
        ensures
            r is Some <==> self@ < MAX_DAY_NUMBER,
            r matches Some(d) ==> d@ == self@ + 1,
            MIN_DAY_NUMBER <= self@ <= MAX_DAY_NUMBER,
    {
        proof {
            use_type_invariant(self);
        }
        if self.days < MAX_DAY_NUMBER {
            Some(Date { days: self.days + 1 })
        } else {
            None
        }
    }

    /// The day before, unless this is the first representable one.
    pub fn pred_opt(&self) -> (r: Option<Date>)
        ensures
            r is Some <==> self@ > MIN_DAY_NUMBER,
            r matches Some(d) ==> d@ == self@ - 1,
            MIN_DAY_NUMBER <= self@ <= MAX_DAY_NUMBER,
    {
        proof {
            use_type_invariant(self);
        }
        if self.days > MIN_DAY_NUMBER {
            Some(Date { days: self.days - 1 })
        } else {
            None
        }
    }

    /// The date `days` days later (earlier, if negative), if it is
    /// representable.
    pub fn checked_add_days(&self, days: i64) -> (r: Option<Date>)
        ensures
            r is Some <==> MIN_DAY_NUMBER <= self@ + days <= MAX_DAY_NUMBER,
            r matches Some(d) ==> d@ == self@ + days,
    {
        proof {
            use_type_invariant(self);
        }
        if days < -200000000 || days > 200000000 {
            return None;
        }
        let sum: i64 = self.days as i64 + days;
        if MIN_DAY_NUMBER as i64 <= sum && sum <= MAX_DAY_NUMBER as i64 {
            Some(Date { days: sum as i32 })
        } else {
            None
        }
    }

    /// The number of days from `earlier` to this date.
    pub fn days_since(&self, earlier: &Date) -> (r: i64)
        ensures
            r == self@ - earlier@,
    {
        proof {
            use_type_invariant(self);
            use_type_invariant(earlier);
        }
        self.days as i64 - earlier.days as i64
    }

    /// Whether this date comes before `other`.
    pub fn is_before(&self, other: &Date) -> (r: bool)
        ensures
            r == (self@ < other@),
    {
        self.days < other.days
    }

    /// Whether this date comes after `other`.
    pub fn is_after(&self, other: &Date) -> (r: bool)
        ensures
            r == (self@ > other@),
    {
        self.days > other.days
    }
}

/// The day number of the day that holds the given timestamp.
pub open spec fn day_of_timestamp(secs: int) -> int {
    secs / 86400 + 719163
}

/// The timestamp of the first second of the day with the given day number.
pub open spec fn timestamp_of_day(n: int) -> int {
    (n - 719163) * 86400
}

/// An instant of UTC: whole seconds since the start of 1 January 1970 and the
/// nanoseconds past that second. Its day is a representable [`Date`].
#[derive(Clone, Copy, Debug, PartialEq, Eq, Structural, Hash)]
pub struct DateTime {
    secs: i64,
    nanos: u32,
}

impl DateTime {
    /// Every instant lies in a representable day.
    #[verifier::type_invariant]
    pub open spec fn in_range(self) -> bool {
        MIN_TIMESTAMP <= self.secs() <= MAX_TIMESTAMP && 0 <= self.nanos() < 1000000000
    }

    /// The whole seconds since the start of 1 January 1970.
    pub closed spec fn secs(self) -> int {
        self.secs as int
    }

    /// The nanoseconds past the whole second.
    pub closed spec fn nanos(self) -> int {
        self.nanos as int
    }

    /// The day number of the instant's day.
    pub open spec fn day(self) -> int {
        day_of_timestamp(self.secs())
    }

    /// Whether this instant is later than `other`.
    pub open spec fn later_than(self, other: DateTime) -> bool {
        self.secs() > other.secs() || (self.secs() == other.secs() && self.nanos() > other.nanos())
    }

    /// The instant `secs` seconds and `nanos` nanoseconds after the start of
    /// 1 January 1970, if its day is representable and `nanos` is less than
    /// a second.
    pub fn from_timestamp(secs: i64, nanos: u32) -> (r: Option<DateTime>)
        ensures
            r is Some <==> MIN_TIMESTAMP <= secs <= MAX_TIMESTAMP && nanos < 1000000000,
            r matches Some(t) ==> t.secs() == secs && t.nanos() == nanos,
    {
        if MIN_TIMESTAMP <= secs && secs <= MAX_TIMESTAMP && nanos < 1000000000 {
            Some(DateTime { secs, nanos })
        } else {
            None
        }
    }

    /// The whole seconds since the start of 1 January 1970.
    pub fn timestamp(&self) -> (r: i64)
        ensures
            r == self.secs(),
            MIN_TIMESTAMP <= r <= MAX_TIMESTAMP,
    {
        proof {
            use_type_invariant(self);
        }
        self.secs
    }

    /// The nanoseconds past the whole second.
    pub fn timestamp_subsec_nanos(&self) -> (r: u32)
        ensures
            r == self.nanos(),
            r < 1000000000,
    {
        proof {
            use_type_invariant(self);
        }
        self.nanos
    }

    /// The day that the instant lies in.
    pub fn date_naive(&self) -> (r: Date)
        ensures
            r@ == self.day(),
            MIN_DAY_NUMBER <= r@ <= MAX_DAY_NUMBER,
    {
        proof {
            use_type_invariant(self);
        }
        let whole: i64 = if self.secs >= 0 {
            self.secs / SECONDS_PER_DAY
        } else {
            -((SECONDS_PER_DAY - 1 - self.secs) / SECONDS_PER_DAY)
        };
        Date { days: (whole + UNIX_EPOCH_DAY as i64) as i32 }
    }

    /// Whether this instant is later than `other`.
    pub fn is_after(&self, other: &DateTime) -> (r: bool)
        ensures
            r == self.later_than(*other),
    {
        self.secs > other.secs || (self.secs == other.secs && self.nanos > other.nanos)
    }

    /// Whether this instant is earlier than `other`.
    pub fn is_before(&self, other: &DateTime) -> (r: bool)
        ensures
            r == other.later_than(*self),
    {
        other.is_after(self)
    }

    /// The instant `seconds` seconds later (earlier, if negative), if its day
    /// is representable.
    pub fn checked_add_seconds(&self, seconds: i64) -> (r: Option<DateTime>)
        ensures
            r is Some <==> MIN_TIMESTAMP <= self.secs() + seconds <= MAX_TIMESTAMP,
            r matches Some(t) ==> t.secs() == self.secs() + seconds && t.nanos() == self.nanos(),
    {
        proof {
            use_type_invariant(self);
        }
        match self.secs.checked_add(seconds) {
            Some(sum) => {
                if MIN_TIMESTAMP <= sum && sum <= MAX_TIMESTAMP {
                    Some(DateTime { secs: sum, nanos: self.nanos })
                } else {
                    None
                }
            },
            None => None,
        }
    }
}

impl Date {
    /// The instant at the given hour, minute and second of this day, if
    /// they name a time of day.
    pub fn and_hms_opt(&self, hour: u32, min: u32, sec: u32) -> (r: Option<DateTime>)
        ensures
            r is Some <==> hour < 24 && min < 60 && sec < 60,
            r matches Some(t) ==> t.secs() == timestamp_of_day(self@) + hour * 3600 + min * 60
                + sec && t.nanos() == 0,
    {
        proof {
            use_type_invariant(self);
        }
        if hour < 24 && min < 60 && sec < 60 {
            let start: i64 = (self.days as i64 - UNIX_EPOCH_DAY as i64) * SECONDS_PER_DAY;
            let of_day: i64 = hour as i64 * 3600 + min as i64 * 60 + sec as i64;
            Some(DateTime { secs: start + of_day, nanos: 0 })
        } else {
            None
        }
    }

    /// Noon of this day.
    pub fn noon(&self) -> (r: DateTime)
        ensures
            r == noon_of(self@),
            r.secs() == timestamp_of_day(self@) + 43200,
            r.nanos() == 0,
            r.day() == self@,
    {
        self.and_hms_opt(12, 0, 0).unwrap()
    }
}

/// Noon of the day with number `day`.
pub closed spec fn noon_of(day: int) -> DateTime {
    DateTime { secs: (timestamp_of_day(day) + 43200) as i64, nanos: 0 }
}

/// Noon of a representable day is an instant of that day, twelve hours
/// after its start.
pub proof fn lemma_noon_of(day: int)
    requires
        MIN_DAY_NUMBER <= day <= MAX_DAY_NUMBER,
    ensures
        noon_of(day).secs() == timestamp_of_day(day) + 43200,
        noon_of(day).nanos() == 0,
        noon_of(day).day() == day,
{
}

} // verus!
