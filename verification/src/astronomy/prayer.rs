//! Prayer Times Calculation Module.
//!
//! Calculates Fajr (Subuh), Imsak, and Maghrib times from the crossings of
//! the sun.

use crate::astronomy::search::{
    crossing, find_sun_altitude_time, were_read, Reading, Readings, HALVINGS,
};
use crate::calendar::ShaumError;
use crate::civil::{timestamp_of_day, Date, DateTime};
use crate::location::{mean_time_offset, GeoCoordinate};
use vstd::arithmetic::div_mod::{lemma_fundamental_div_mod, lemma_fundamental_div_mod_converse};
use vstd::prelude::*;

verus! {

/// The altitude of the centre of the sun at sunset, in thousandths of a
/// degree: the horizon, less the refraction of the air and the radius of
/// the sun's disc.
pub const SUNSET_ALTITUDE: i32 = -833;

/// Prayer calculation parameters. Angles are in thousandths of a degree,
/// negative below the horizon.
#[derive(Debug, Clone, Copy, PartialEq, Eq, Structural, Hash)]
pub struct PrayerParams {
    /// The altitude of the sun at Fajr.
    pub fajr_angle: i32,
    /// How long before Fajr Imsak is, in minutes.
    pub imsak_buffer_minutes: i64,
    /// The safety margin that is added to Fajr and Maghrib, in minutes.
    pub ihtiyat_minutes: i64,
    /// The whole number of seconds that Fajr and Maghrib are rounded up to
    /// a multiple of.
    pub rounding_granularity_seconds: i64,
    /// The altitude of the sun at Maghrib.
    pub sunset_altitude: i32,
}

impl PrayerParams {
    /// Whether the parameters can be worked with: the rounding step is at
    /// least a second. There are no multiples of a step of nothing to round
    /// to; a step of one second rounds nothing.
    pub open spec fn is_valid(self) -> bool {
        1 <= self.rounding_granularity_seconds
    }

    /// Parameters with the given Fajr angle and Imsak buffer, without a
    /// safety margin or rounding, and with the usual altitude of sunset.
    pub open spec fn plain(fajr_angle: i32, imsak_buffer_minutes: i64) -> PrayerParams {
        PrayerParams {
            fajr_angle,
            imsak_buffer_minutes,
            ihtiyat_minutes: 0,
            rounding_granularity_seconds: 1,
            sunset_altitude: SUNSET_ALTITUDE,
        }
    }

    /// Parameters with the given Fajr angle and Imsak buffer, without a
    /// safety margin or rounding, and with the usual altitude of sunset.
    pub fn new(fajr_angle: i32, imsak_buffer_minutes: i64) -> (r: PrayerParams)
        ensures
            r == PrayerParams::plain(fajr_angle, imsak_buffer_minutes),
    {
        PrayerParams {
            fajr_angle,
            imsak_buffer_minutes,
            ihtiyat_minutes: 0,
            rounding_granularity_seconds: 1,
            sunset_altitude: SUNSET_ALTITUDE,
        }
    }

    /// MABIMS: Fajr at 20 degrees below the horizon, Imsak 10 minutes
    /// before.
    pub fn mabims() -> (r: PrayerParams)
        ensures
            r == PrayerParams::plain(-20000i32, 10),
    {
        PrayerParams::new(-20000, 10)
    }

    /// Muslim World League: Fajr at 18 degrees below the horizon.
    pub fn mwl() -> (r: PrayerParams)
        ensures
            r == PrayerParams::plain(-18000i32, 10),
    {
        PrayerParams::new(-18000, 10)
    }

    /// Islamic Society of North America: Fajr at 15 degrees below the
    /// horizon.
    pub fn isna() -> (r: PrayerParams)
        ensures
            r == PrayerParams::plain(-15000i32, 10),
    {
        PrayerParams::new(-15000, 10)
    }

    /// Umm al-Qura: Fajr at 18.5 degrees below the horizon.
    pub fn umm_al_qura() -> (r: PrayerParams)
        ensures
            r == PrayerParams::plain(-18500i32, 10),
    {
        PrayerParams::new(-18500, 10)
    }

    /// Egyptian General Authority of Survey: Fajr at 19.5 degrees below the
    /// horizon.
    pub fn egyptian() -> (r: PrayerParams)
        ensures
            r == PrayerParams::plain(-19500i32, 10),
    {
        PrayerParams::new(-19500, 10)
    }

    /// Whether the parameters can be worked with.
    pub fn check(&self) -> (r: bool)
        ensures
            r == self.is_valid(),
    {
        1 <= self.rounding_granularity_seconds
    }
}

impl Default for PrayerParams {
    fn default() -> (r: PrayerParams)
        ensures
            r == PrayerParams::plain(-20000i32, 10),
    {
        PrayerParams::new(-20000, 10)
    }
}

/// The least multiple of `step` that is not less than `t`.
pub open spec fn rounded_up(t: int, step: int) -> int {
    if t % step == 0 {
        t
    } else {
        t + (step - t % step)
    }
}

/// The time that is given out for a crossing of the sun: the safety margin
/// is added to the raw instant, and the sum is rounded up.
pub open spec fn published(raw: int, params: PrayerParams) -> int {
    rounded_up(raw + params.ihtiyat_minutes * 60, params.rounding_granularity_seconds as int)
}

/// The remainder of a negative number, from that of its positive
/// counterpart.
proof fn lemma_mod_of_negative(t: int, step: int)
    requires
        step >= 1,
        t < 0,
    ensures
        t % step == (if (-t) % step == 0 {
            0
        } else {
            step - (-t) % step
        }),
{
    let q = (-t) / step;
    let b = (-t) % step;
    lemma_fundamental_div_mod(-t, step);
    assert(-t == step * q + b);
    if b == 0 {
        assert(t == (-q) * step + 0) by (nonlinear_arith)
            requires
                -t == step * q + b,
                b == 0,
        ;
        lemma_fundamental_div_mod_converse(t, step, -q, 0);
    } else {
        assert(t == (-q - 1) * step + (step - b)) by (nonlinear_arith)
            requires
                -t == step * q + b,
        ;
        lemma_fundamental_div_mod_converse(t, step, -q - 1, step - b);
    }
}

/// Rounding up gives a multiple of the step, less than a step further on.
pub proof fn lemma_rounded_up(t: int, step: int)
    requires
        step >= 1,
    ensures
        t <= rounded_up(t, step) < t + step,
        rounded_up(t, step) % step == 0,
{
    let q = t / step;
    let past = t % step;
    lemma_fundamental_div_mod(t, step);
    if past != 0 {
        assert(t + (step - past) == (q + 1) * step + 0) by (nonlinear_arith)
            requires
                t == step * q + past,
        ;
        lemma_fundamental_div_mod_converse(t + (step - past), step, q + 1, 0);
    }
}

/// The least multiple of `step` that is not less than `t`, for numbers as
/// wide as the sums of a time and a margin.
fn round_up_wide(t: i128, step: i128) -> (r: i128)
    requires
        1 <= step <= i64::MAX,
        -0x400000000000000000 <= t <= 0x400000000000000000,
    ensures
        r == rounded_up(t as int, step as int),
        t <= r < t + step,
{
    let past: i128 = if t >= 0 {
        t % step
    } else {
        let behind: i128 = (-t) % step;
        if behind == 0 {
            0
        } else {
            step - behind
        }
    };
    proof {
        if t < 0 {
            lemma_mod_of_negative(t as int, step as int);
        }
        lemma_rounded_up(t as int, step as int);
    }
    if past == 0 {
        t
    } else {
        t + (step - past)
    }
}

/// The least multiple of `step` that is not less than `t`, where that
/// multiple is a number of the machine.
pub fn round_up(t: i64, step: i64) -> (r: i64)
    requires
        1 <= step,
        t + step - 1 <= i64::MAX,
    ensures
        r == rounded_up(t as int, step as int),
        t <= r < t + step,
        (r as int) % (step as int) == 0,
{
    proof {
        lemma_rounded_up(t as int, step as int);
    }
    round_up_wide(t as i128, step as i128) as i64
}

/// Prayer times for a specific date and location.
#[derive(Debug, Clone, Copy, PartialEq, Eq, Structural, Hash)]
pub struct PrayerTimes {
    /// Imsak time (end of Suhur, start of fasting).
    pub imsak: DateTime,
    /// Fajr/Subuh time (beginning of dawn prayer).
    pub fajr: DateTime,
    /// Maghrib time (sunset, end of fasting).
    pub maghrib: DateTime,
}

/// The instant at which the day with number `day` starts at a longitude, by
/// local mean time, in seconds since the start of 1 January 1970.
pub open spec fn local_midnight(day: int, lng: int) -> int {
    timestamp_of_day(day) - mean_time_offset(lng)
}

/// The three times, from the raw instants of the two crossings: Fajr and
/// Maghrib as they are given out, and Imsak the buffer before Fajr.
pub open spec fn times_from(fajr: int, maghrib: int, params: PrayerParams) -> (int, int, int) {
    let dawn = published(fajr, params);
    (dawn - params.imsak_buffer_minutes * 60, dawn, published(maghrib, params))
}

/// The three times from the raw instants of the two crossings.
///
/// Fajr and Maghrib get the safety margin and the rounding; Imsak is the
/// buffer before the Fajr that is given out. The parameters must be valid
/// and the times must lie within the calendar, else there is no answer.
pub fn assemble_times(fajr: i64, maghrib: i64, params: &PrayerParams) -> (r: Option<PrayerTimes>)
    ensures
        r matches Some(times) ==> params.is_valid() && (
            times.imsak.secs(),
            times.fajr.secs(),
            times.maghrib.secs(),
        ) == times_from(fajr as int, maghrib as int, *params) && times.imsak.nanos() == 0
            && times.fajr.nanos() == 0 && times.maghrib.nanos() == 0,
        r is None <==> !params.is_valid() || !within_calendar(
            times_from(fajr as int, maghrib as int, *params),
        ),
{
    if !params.check() {
        return None;
    }
    let step: i128 = params.rounding_granularity_seconds as i128;
    let margin: i128 = params.ihtiyat_minutes as i128 * 60;
    let dawn: i128 = round_up_wide(fajr as i128 + margin, step);
    let dusk: i128 = round_up_wide(maghrib as i128 + margin, step);
    let imsak: i128 = dawn - params.imsak_buffer_minutes as i128 * 60;
    let first: i128 = crate::civil::MIN_TIMESTAMP as i128;
    let last: i128 = crate::civil::MAX_TIMESTAMP as i128;
    if first <= imsak && imsak <= last && first <= dawn && dawn <= last && first <= dusk && dusk
        <= last {
        match (
            DateTime::from_timestamp(imsak as i64, 0),
            DateTime::from_timestamp(dawn as i64, 0),
            DateTime::from_timestamp(dusk as i64, 0),
        ) {
            (Some(i), Some(f), Some(m)) => Some(PrayerTimes { imsak: i, fajr: f, maghrib: m }),
            _ => None,
        }
    } else {
        None
    }
}

/// Whether the three times lie in representable days.
pub open spec fn within_calendar(times: (int, int, int)) -> bool {
    &&& crate::civil::MIN_TIMESTAMP <= times.0 <= crate::civil::MAX_TIMESTAMP
    &&& crate::civil::MIN_TIMESTAMP <= times.1 <= crate::civil::MAX_TIMESTAMP
    &&& crate::civil::MIN_TIMESTAMP <= times.2 <= crate::civil::MAX_TIMESTAMP
}

/// Whether `r` is the answer for a day where the two searches end as
/// `fajr` and `maghrib` say: the three times from the two crossings; the
/// error `SolarEventNotFound` where one of the crossings does not happen;
/// the out-of-range error where a time lies outside the calendar.
pub open spec fn is_prayer_answer(
    r: Result<PrayerTimes, ShaumError>,
    day: int,
    params: PrayerParams,
    fajr: Option<int>,
    maghrib: Option<int>,
) -> bool {
    match (fajr, maghrib) {
        (Some(f), Some(m)) => {
            let times = times_from(f, m, params);
            if within_calendar(times) {
                r matches Ok(t) && (t.imsak.secs(), t.fajr.secs(), t.maghrib.secs()) == times
                    && t.imsak.nanos() == 0 && t.fajr.nanos() == 0 && t.maghrib.nanos() == 0
            } else {
                r matches Err(e) && e.is_out_of_range_for(day)
            }
        },
        _ => r == Err::<PrayerTimes, ShaumError>(ShaumError::SolarEventNotFound),
    }
}

/// Calculates prayer times for a given date and location.
///
/// * `date` - The Gregorian date
/// * `coords` - Geographic coordinates (latitude, longitude)
/// * `params` - Prayer calculation parameters (Fajr angle, Imsak buffer)
/// * `sun` - Says where the sun stands above the place at an instant (in
///   seconds since the start of 1 January 1970), compared with an altitude
///   (in thousandths of a degree).
///
/// The day is the local one: it starts at midnight by the mean time of the
/// place. Fajr is searched in its first half, at the Fajr angle, and Maghrib
/// in its second half, at the altitude of sunset, if Fajr was found. Where
/// the sun does not cross one of the two in its half day, the answer is
/// `SolarEventNotFound`; it is never an approximate time. Imsak is the
/// buffer before Fajr.
pub fn calculate_prayer_times<F: Fn(i64, i32) -> Reading>(
    date: Date,
    coords: GeoCoordinate,
    params: &PrayerParams,
    sun: &F,
) -> (r: Result<PrayerTimes, ShaumError>)
    requires
        forall|t: i64, a: i32| call_requires(sun, (t, a)),
    ensures
        !params.is_valid() ==> (r matches Err(ShaumError::InvalidConfiguration { reason })
            && reason@ == invalid_params_message()),
        params.is_valid() ==> exists|morning: Readings, evening: Readings|
            morning.halvings.len() == HALVINGS && evening.halvings.len() == HALVINGS && were_read(
                sun,
                params.fajr_angle,
                morning,
                local_midnight(date@, coords.spec_lng() as int),
                true,
            ) && (crossing(morning, local_midnight(date@, coords.spec_lng() as int), true)
                is Some ==> were_read(
                sun,
                params.sunset_altitude,
                evening,
                local_midnight(date@, coords.spec_lng() as int),
                false,
            )) && #[trigger] is_prayer_answer(
                r,
                date@,
                *params,
                crossing(morning, local_midnight(date@, coords.spec_lng() as int), true),
                crossing(evening, local_midnight(date@, coords.spec_lng() as int), false),
            ),
        r matches Ok(times) ==> times.imsak.secs() == times.fajr.secs()
            - params.imsak_buffer_minutes * 60 && times.fajr.secs() <= times.maghrib.secs(),
{
    if !params.check() {
        return Err(ShaumError::invalid_config("Rounding granularity below one second"));
    }
    let midnight = date.and_hms_opt(0, 0, 0).unwrap();
    let start: i64 = midnight.timestamp() - coords.mean_time_offset();
    assert(start == local_midnight(date@, coords.spec_lng() as int));
    let ghost idle = Readings {
        at_start: Reading::Level,
        at_end: Reading::Level,
        halvings: Seq::new(HALVINGS as nat, |i: int| Reading::Level),
    };
    let first = find_sun_altitude_time(start, params.fajr_angle, true, sun);
    let ghost morning = choose|readings: Readings|
        readings.halvings.len() == HALVINGS && were_read(
            sun,
            params.fajr_angle,
            readings,
            start as int,
            true,
        ) && match #[trigger] crossing(readings, start as int, true) {
            Some(t) => first matches Ok(found) && found == t,
            None => first == Err::<i64, ShaumError>(ShaumError::SolarEventNotFound),
        };
    let fajr = match first {
        Ok(t) => t,
        Err(e) => {
            assert(is_prayer_answer(
                Err(e),
                date@,
                *params,
                crossing(morning, start as int, true),
                crossing(idle, start as int, false),
            ));
            return Err(e);
        },
    };
    let second = find_sun_altitude_time(start, params.sunset_altitude, false, sun);
    let ghost evening = choose|readings: Readings|
        readings.halvings.len() == HALVINGS && were_read(
            sun,
            params.sunset_altitude,
            readings,
            start as int,
            false,
        ) && match #[trigger] crossing(readings, start as int, false) {
            Some(t) => second matches Ok(found) && found == t,
            None => second == Err::<i64, ShaumError>(ShaumError::SolarEventNotFound),
        };
    let maghrib = match second {
        Ok(t) => t,
        Err(e) => {
            assert(is_prayer_answer(
                Err(e),
                date@,
                *params,
                crossing(morning, start as int, true),
                crossing(evening, start as int, false),
            ));
            return Err(e);
        },
    };
    let answer = match assemble_times(fajr, maghrib, params) {
        Some(times) => Ok(times),
        None => Err(ShaumError::date_out_of_range(date)),
    };
    proof {
        lemma_rounded_up(
            fajr + params.ihtiyat_minutes * 60,
            params.rounding_granularity_seconds as int,
        );
        lemma_rounded_up(
            maghrib + params.ihtiyat_minutes * 60,
            params.rounding_granularity_seconds as int,
        );
        lemma_rounded_up_grows(
            fajr + params.ihtiyat_minutes * 60,
            maghrib + params.ihtiyat_minutes * 60,
            params.rounding_granularity_seconds as int,
        );
        assert(is_prayer_answer(
            answer,
            date@,
            *params,
            crossing(morning, start as int, true),
            crossing(evening, start as int, false),
        ));
    }
    answer
}

/// Rounding up keeps the order of two instants.
pub proof fn lemma_rounded_up_grows(a: int, b: int, step: int)
    requires
        step >= 1,
        a <= b,
    ensures
        rounded_up(a, step) <= rounded_up(b, step),
{
    lemma_rounded_up(a, step);
    lemma_rounded_up(b, step);
    let x = rounded_up(a, step);
    let y = rounded_up(b, step);
    if y < x {
        // y is a multiple of the step that is not less than a, and less than x
        lemma_fundamental_div_mod(x, step);
        lemma_fundamental_div_mod(y, step);
        let p = x / step;
        let q = y / step;
        assert(x == step * p);
        assert(y == step * q);
        assert(q < p) by (nonlinear_arith)
            requires
                step >= 1,
                step * q < step * p,
        ;
        assert(step * q <= step * p - step) by (nonlinear_arith)
            requires
                step >= 1,
                q < p,
        ;
    }
}

/// The text of the error for parameters that cannot be worked with.
pub open spec fn invalid_params_message() -> Seq<char> {
    "Rounding granularity below one second"@
}

/// Whether `r` is the answer of a search for the sunset that ends as
/// `found` says: the instant of the crossing; the error
/// `SolarEventNotFound` where the sun does not set in the second half of the
/// day; the out-of-range error where the instant lies outside the calendar.
pub open spec fn is_maghrib_answer(
    r: Result<DateTime, ShaumError>,
    day: int,
    found: Option<int>,
) -> bool {
    match found {
        Some(t) => if crate::civil::MIN_TIMESTAMP <= t <= crate::civil::MAX_TIMESTAMP {
            r matches Ok(instant) && instant.secs() == t && instant.nanos() == 0
        } else {
            r matches Err(e) && e.is_out_of_range_for(day)
        },
        None => r == Err::<DateTime, ShaumError>(ShaumError::SolarEventNotFound),
    }
}

/// Finds the sunset of a day at a place: the instant in the second half of
/// the local day at which the sun sinks through the altitude of sunset.
///
/// * `sun` - Says where the sun stands above the place at an instant (in
///   seconds since the start of 1 January 1970), compared with an altitude
///   (in thousandths of a degree).
///
/// Where the sun does not set in that half day, the answer is
/// `SolarEventNotFound`.
pub fn find_maghrib<F: Fn(i64, i32) -> Reading>(date: Date, coords: GeoCoordinate, sun: &F) -> (r:
    Result<DateTime, ShaumError>)
    requires
        forall|t: i64, a: i32| call_requires(sun, (t, a)),
    ensures
        exists|evening: Readings|
            evening.halvings.len() == HALVINGS && were_read(
                sun,
                SUNSET_ALTITUDE,
                evening,
                local_midnight(date@, coords.spec_lng() as int),
                false,
            ) && #[trigger] is_maghrib_answer(
                r,
                date@,
                crossing(evening, local_midnight(date@, coords.spec_lng() as int), false),
            ),
{
    let midnight = date.and_hms_opt(0, 0, 0).unwrap();
    let start: i64 = midnight.timestamp() - coords.mean_time_offset();
    assert(start == local_midnight(date@, coords.spec_lng() as int));
    let found = find_sun_altitude_time(start, SUNSET_ALTITUDE, false, sun);
    let ghost evening = choose|readings: Readings|
        readings.halvings.len() == HALVINGS && were_read(
            sun,
            SUNSET_ALTITUDE,
            readings,
            start as int,
            false,
        ) && match #[trigger] crossing(readings, start as int, false) {
            Some(t) => found matches Ok(x) && x == t,
            None => found == Err::<i64, ShaumError>(ShaumError::SolarEventNotFound),
        };
    let answer = match found {
        Ok(t) => match DateTime::from_timestamp(t, 0) {
            Some(instant) => Ok(instant),
            None => Err(ShaumError::date_out_of_range(date)),
        },
        Err(e) => Err(e),
    };
    assert(is_maghrib_answer(answer, date@, crossing(evening, start as int, false)));
    answer
}

} // verus!
