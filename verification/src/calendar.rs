//! Conversion of Gregorian days to the Hijri (Umm al-Qura) calendar, with the
//! moon-sighting adjustment and the range in which the conversion is defined.

use crate::civil::{
    civil_of, day_number, is_civil_date, lemma_civil_of_day_number, lemma_day_number_order,
    lemma_days_before_month, Civil, Date, MAX_DAY_NUMBER, MIN_DAY_NUMBER,
};
use vstd::prelude::*;
use vstd::string::StringExecFns;

verus! {

/// Minimum Gregorian year for Hijri conversion.
pub const HIJRI_MIN_YEAR: i32 = 1938;

/// Maximum Gregorian year for Hijri conversion.
pub const HIJRI_MAX_YEAR: i32 = 2076;

/// The day number of 1 January of [`HIJRI_MIN_YEAR`].
pub const HIJRI_FIRST_DAY: i32 = 707475;

/// The day number of 31 December of [`HIJRI_MAX_YEAR`].
pub const HIJRI_LAST_DAY: i32 = 758244;

/// The largest shift, in days, that a moon-sighting adjustment can make.
pub const MAX_ADJUSTMENT: i64 = 30;

/// A day of the Hijri calendar.
#[derive(Debug, Clone, Copy, PartialEq, Eq, Structural, Hash)]
pub struct HijriDate {
    pub year: usize,
    pub month: usize,
    pub day: usize,
}

impl HijriDate {
    /// Whether the month is one of the twelve and the day one of the at most
    /// thirty of a month.
    pub open spec fn is_month_and_day(self) -> bool {
        1 <= self.month <= 12 && 1 <= self.day <= 30
    }

    pub fn year(&self) -> (r: usize)
        ensures
            r == self.year,
    {
        self.year
    }

    pub fn month(&self) -> (r: usize)
        ensures
            r == self.month,
    {
        self.month
    }

    pub fn day(&self) -> (r: usize)
        ensures
            r == self.day,
    {
        self.day
    }
}

/// Errors from shaum operations.
#[derive(Debug, Clone)]
pub enum ShaumError {
    /// Date outside supported range (1938-2076).
    DateOutOfRange { date: Date, min: Date, max: Date },
    /// Invalid configuration.
    InvalidConfiguration { reason: String },
    /// Analysis failure.
    AnalysisError(String),
    /// Hijri conversion error.
    HijriConversionError(String),
    /// Sunset calculation error.
    SunsetCalculationError(String),
    /// Moon provider error.
    MoonProviderError(String),
    /// The sun does not cross the wanted altitude in the searched half day.
    SolarEventNotFound,
}

impl ShaumError {
    /// Whether this is the out-of-range error for `day`, with the bounds of
    /// the supported range.
    pub open spec fn is_out_of_range_for(self, day: int) -> bool {
        self matches ShaumError::DateOutOfRange { date, min, max } && date@ == day && min@
            == HIJRI_FIRST_DAY && max@ == HIJRI_LAST_DAY
    }

    /// Creates a `DateOutOfRange` error with standard bounds.
    pub fn date_out_of_range(date: Date) -> (r: ShaumError)
        ensures
            r.is_out_of_range_for(date@),
    {
        let min = Date::from_num_days_from_ce_opt(HIJRI_FIRST_DAY).unwrap();
        let max = Date::from_num_days_from_ce_opt(HIJRI_LAST_DAY).unwrap();
        ShaumError::DateOutOfRange { date, min, max }
    }

    /// Creates an `InvalidConfiguration` error.
    pub fn invalid_config(reason: &str) -> (r: ShaumError)
        ensures
            r matches ShaumError::InvalidConfiguration { reason: text } && text@ == reason@,
    {
        ShaumError::InvalidConfiguration { reason: String::from_str(reason) }
    }
}

/// The adjustment kept within thirty days either way.
pub open spec fn clamp_adjustment(adjustment: int) -> int {
    if adjustment < -30 {
        -30
    } else if adjustment > 30 {
        30
    } else {
        adjustment
    }
}

/// Whether the day with number `n` lies in a year for which the conversion
/// is defined.
pub open spec fn in_hijri_range(n: int) -> bool {
    HIJRI_MIN_YEAR <= civil_of(n).year <= HIJRI_MAX_YEAR
}

/// The Hijri date that the Umm al-Qura tables of the `hijri_date` crate give
/// for a Gregorian day. Nothing is said of it but that it is a function of
/// the day.
pub uninterp spec fn umm_al_qura(year: int, month: int, day: int) -> HijriDate;

/// The Hijri date of the day with number `n`.
pub open spec fn hijri_of_day(n: int) -> HijriDate {
    let c = civil_of(n);
    umm_al_qura(c.year, c.month, c.day)
}

/// The years of the supported range are the days from [`HIJRI_FIRST_DAY`] to
/// [`HIJRI_LAST_DAY`].
pub proof fn lemma_hijri_range_days(c: Civil)
    requires
        c.is_valid(),
    ensures
        in_hijri_range(c.day_number()) <==> HIJRI_FIRST_DAY <= c.day_number() <= HIJRI_LAST_DAY,
{
    lemma_civil_of_day_number(c);
    lemma_days_before_month(HIJRI_MIN_YEAR as int, 1);
    lemma_days_before_month(HIJRI_MAX_YEAR as int, 12);
    assert(day_number(HIJRI_MIN_YEAR as int, 1, 1) == HIJRI_FIRST_DAY);
    assert(day_number(HIJRI_MAX_YEAR as int, 12, 31) == HIJRI_LAST_DAY);
    lemma_day_number_order(c.year, c.month, c.day, HIJRI_MIN_YEAR as int, 1, 1);
    lemma_day_number_order(c.year, c.month, c.day, HIJRI_MAX_YEAR as int, 12, 31);
}

/// `hijri_date::HijriDate::from_gr`, read back with `year`, `month` and
/// `day`. It answers exactly for the existing days of the years 1938 to
/// 2076: other years and impossible months or days it refuses by its own
/// tests, other days by failing to read the triple as a date, and the days
/// of those years lie within its tables. What it answers is looked up and
/// computed from the three numbers alone; [`umm_al_qura`] is the name of
/// that answer. Its month is one of the twelve, counted from the start of
/// the tables, and its day one of the at most thirty of a month of the
/// tables.
#[verifier::external_body]
fn hijri_from_gregorian(year: usize, month: usize, day: usize) -> (r: Result<HijriDate, String>)
    ensures
        r is Ok <==> (is_civil_date(year as int, month as int, day as int) && HIJRI_MIN_YEAR
            <= year <= HIJRI_MAX_YEAR),
        r matches Ok(h) ==> h == umm_al_qura(year as int, month as int, day as int),
        r matches Ok(h) ==> (1 <= h.month <= 12 && 1 <= h.day <= 30),
{
    match hijri_date::HijriDate::from_gr(year, month, day) {
        Ok(h) => Ok(HijriDate { year: h.year(), month: h.month(), day: h.day() }),
        Err(e) => Err(e),
    }
}

/// The adjustment kept within thirty days either way.
pub fn clamped(adjustment: i64) -> (r: i64)
    ensures
        r == clamp_adjustment(adjustment as int),
{
    if adjustment < -MAX_ADJUSTMENT {
        -MAX_ADJUSTMENT
    } else if adjustment > MAX_ADJUSTMENT {
        MAX_ADJUSTMENT
    } else {
        adjustment
    }
}

/// The day that a conversion with this adjustment looks up: `date` shifted
/// by the clamped adjustment.
pub open spec fn adjusted_day(date: int, adjustment: int) -> int {
    date + clamp_adjustment(adjustment)
}

/// Whether the day with number `n` is one that a [`Date`] can hold.
pub open spec fn is_representable(n: int) -> bool {
    MIN_DAY_NUMBER <= n <= MAX_DAY_NUMBER
}

/// Whether the conversion is defined for `date` with this adjustment: the
/// shifted day lies in the years 1938 to 2076.
pub open spec fn is_convertible(date: int, adjustment: int) -> bool {
    let n = adjusted_day(date, adjustment);
    is_representable(n) && in_hijri_range(n)
}

/// The day that the error names when the conversion is not defined: the
/// shifted day, or `date` itself where the shifted day is past the end of
/// the calendar.
pub open spec fn rejected_day(date: int, adjustment: int) -> int {
    let n = adjusted_day(date, adjustment);
    if is_representable(n) {
        n
    } else {
        date
    }
}

/// Converts Gregorian to Hijri with adjustment.
///
/// `adjustment` is the day offset for moon sighting (positive = Hijri
/// ahead), clamped to thirty days either way. The shifted day must lie in
/// the years 1938 to 2076; otherwise the error names it (or `date` itself,
/// if the shifted day is past the end of the calendar).
pub fn to_hijri(date: Date, adjustment: i64) -> (r: Result<HijriDate, ShaumError>)
    ensures
        is_convertible(date@, adjustment as int) ==> r == Ok::<HijriDate, ShaumError>(
            hijri_of_day(adjusted_day(date@, adjustment as int)),
        ),
        !is_convertible(date@, adjustment as int) ==> (r matches Err(e) && e.is_out_of_range_for(
            rejected_day(date@, adjustment as int),
        )),
        is_convertible(date@, adjustment as int) <==> HIJRI_FIRST_DAY <= adjusted_day(
            date@,
            adjustment as int,
        ) <= HIJRI_LAST_DAY,
        r matches Ok(h) ==> h.is_month_and_day(),
{
    match date.checked_add_days(clamped(adjustment)) {
        None => Err(ShaumError::date_out_of_range(date)),
        Some(adjusted) => {
            let (year, month, day) = adjusted.ymd();
            proof {
                lemma_hijri_range_days(adjusted.civil());
            }
            if year < HIJRI_MIN_YEAR || year > HIJRI_MAX_YEAR {
                return Err(ShaumError::date_out_of_range(adjusted));
            }
            match hijri_from_gregorian(year as usize, month as usize, day as usize) {
                Ok(h) => Ok(h),
                Err(e) => Err(ShaumError::HijriConversionError(e)),
            }
        },
    }
}

/// The most recent conversion, kept so that the same question asked again
/// is answered without converting again. What is answered never depends on
/// what the memo holds.
pub struct HijriMemo {
    slot: Option<(Date, i64, HijriDate)>,
}

impl HijriMemo {
    /// What the memo holds is a conversion that succeeded, with its answer.
    #[verifier::type_invariant]
    spec fn holds_an_answer(self) -> bool {
        self.slot matches Some(entry) ==> is_convertible(entry.0@, entry.1 as int) && entry.2
            == hijri_of_day(adjusted_day(entry.0@, entry.1 as int)) && entry.2.is_month_and_day()
    }

    /// Whether the memo holds the answer for this date and adjustment.
    pub closed spec fn remembers(self, date: Date, adjustment: i64) -> bool {
        self.slot matches Some(entry) && entry.0 == date && entry.1 == adjustment
    }

    /// Whether the memo holds nothing.
    pub closed spec fn is_empty(self) -> bool {
        self.slot is None
    }

    /// A memo that holds nothing.
    pub fn new() -> (r: HijriMemo)
        ensures
            r.is_empty(),
    {
        HijriMemo { slot: None }
    }

    /// Converts as [`to_hijri`] does, and remembers a conversion that
    /// succeeded.
    pub fn to_hijri(&mut self, date: Date, adjustment: i64) -> (r: Result<HijriDate, ShaumError>)
        ensures
            is_convertible(date@, adjustment as int) ==> r == Ok::<HijriDate, ShaumError>(
                hijri_of_day(adjusted_day(date@, adjustment as int)),
            ) && final(self).remembers(date, adjustment),
            !is_convertible(date@, adjustment as int) ==> (r matches Err(e)
                && e.is_out_of_range_for(rejected_day(date@, adjustment as int))) && *final(self)
                == *old(self),
            r matches Ok(h) ==> h.is_month_and_day(),
    {
        proof {
            use_type_invariant(&*self);
        }
        if let Some(entry) = self.slot {
            if entry.0 == date && entry.1 == adjustment {
                return Ok(entry.2);
            }
        }
        let answer = to_hijri(date, adjustment);
        if let Ok(h) = answer {
            self.slot = Some((date, adjustment, h));
        }
        answer
    }
}

/// Returns Hijri month name.
pub fn get_hijri_month_name(month: usize) -> (r: &'static str)
    ensures
        r@ == hijri_month_name(month as int),
{
    match month {
        1 => "Muharram",
        2 => "Safar",
        3 => "Rabi' al-Awwal",
        4 => "Rabi' al-Thani",
        5 => "Jumada al-Ula",
        6 => "Jumada al-Akhirah",
        7 => "Rajab",
        8 => "Sha'ban",
        9 => "Ramadhan",
        10 => "Shawwal",
        11 => "Dhu al-Qi'dah",
        12 => "Dhu al-Hijjah",
        _ => "Unknown",
    }
}

/// The name of the Hijri month with the given number.
pub open spec fn hijri_month_name(month: int) -> Seq<char> {
    if month == 1 {
        "Muharram"@
    } else if month == 2 {
        "Safar"@
    } else if month == 3 {
        "Rabi' al-Awwal"@
    } else if month == 4 {
        "Rabi' al-Thani"@
    } else if month == 5 {
        "Jumada al-Ula"@
    } else if month == 6 {
        "Jumada al-Akhirah"@
    } else if month == 7 {
        "Rajab"@
    } else if month == 8 {
        "Sha'ban"@
    } else if month == 9 {
        "Ramadhan"@
    } else if month == 10 {
        "Shawwal"@
    } else if month == 11 {
        "Dhu al-Qi'dah"@
    } else if month == 12 {
        "Dhu al-Hijjah"@
    } else {
        "Unknown"@
    }
}

} // verus!
