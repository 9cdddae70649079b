//! The search for the instant at which the sun crosses an altitude.
//!
//! A half day is searched by bisection, on the assumption that the sun
//! rises through the morning and sinks through the evening. The assumption
//! is tested at the two ends of the half day before the search starts.

use crate::calendar::ShaumError;
use vstd::prelude::*;

verus! {

/// Where the sun stands, compared with the wanted altitude.
#[derive(Debug, Clone, Copy, PartialEq, Eq, Structural, Hash)]
pub enum Reading {
    /// Lower than the wanted altitude.
    Below,
    /// Neither lower nor higher.
    Level,
    /// Higher than the wanted altitude.
    Above,
}

/// The number of times that the bracket is halved.
pub const HALVINGS: u32 = 20;

/// The length of the half day that is searched, in seconds.
pub const HALF_DAY: i64 = 43200;

/// The earliest and the latest instant that a search may start from.
pub const WINDOW_LIMIT: i64 = 9000000000000;

/// Two instants with the crossing between them, in seconds.
#[derive(Debug, Clone, Copy, PartialEq, Eq, Structural, Hash)]
pub struct Bracket {
    pub low: i64,
    pub high: i64,
}

/// The instant halfway between two, cut to whole seconds.
pub open spec fn midpoint(low: int, high: int) -> int {
    low + (high - low) / 2
}

/// Whether the crossing comes after an instant with this reading: in the
/// morning while the sun is still below the altitude, in the evening while
/// it is still above.
pub open spec fn crossing_is_later(reading: Reading, is_morning: bool) -> bool {
    if is_morning {
        reading == Reading::Below
    } else {
        reading == Reading::Above
    }
}

/// Whether the half day holds the crossing, going by the readings at its
/// two ends: in the morning the sun is not above the altitude at the start
/// and not below it at the end, in the evening the other way round.
pub open spec fn is_bracketed(at_start: Reading, at_end: Reading, is_morning: bool) -> bool {
    if is_morning {
        at_start != Reading::Above && at_end != Reading::Below
    } else {
        at_start != Reading::Below && at_end != Reading::Above
    }
}

/// The half of the bracket that holds the crossing, going by the reading at
/// its midpoint.
pub open spec fn narrowed(low: int, high: int, reading: Reading, is_morning: bool) -> (int, int) {
    if crossing_is_later(reading, is_morning) {
        (midpoint(low, high), high)
    } else {
        (low, midpoint(low, high))
    }
}

/// The bracket that the bisection ends with: it is halved once for each
/// reading, each taken at the midpoint of the bracket that the readings
/// before it have left.
pub open spec fn bracket_after(readings: Seq<Reading>, low: int, high: int, is_morning: bool) -> (
    int,
    int,
)
    decreases readings.len(),
{
    if readings.len() == 0 {
        (low, high)
    } else {
        let (l, h) = narrowed(low, high, readings[0], is_morning);
        bracket_after(readings.drop_first(), l, h, is_morning)
    }
}

/// The instant that the bisection ends at: the midpoint of the last
/// bracket.
pub open spec fn bisect(readings: Seq<Reading>, low: int, high: int, is_morning: bool) -> int {
    let (l, h) = bracket_after(readings, low, high, is_morning);
    midpoint(l, h)
}

/// Two to the power of `n`.
pub open spec fn pow2(n: nat) -> int
    decreases n,
{
    if n == 0 {
        1
    } else {
        2 * pow2((n - 1) as nat)
    }
}

/// The half day that is searched: the first twelve hours after
/// `window_start` in the morning, the second twelve in the evening.
pub open spec fn half_day(window_start: int, is_morning: bool) -> (int, int) {
    if is_morning {
        (window_start, window_start + HALF_DAY)
    } else {
        (window_start + HALF_DAY, window_start + 2 * HALF_DAY)
    }
}

/// What a search reads of the sun: at the two ends of the half day, and at
/// the midpoint of each bracket that it halves.
pub struct Readings {
    pub at_start: Reading,
    pub at_end: Reading,
    pub halvings: Seq<Reading>,
}

/// The instant that a search finds with these readings; nothing where the
/// half day does not hold the crossing.
pub open spec fn crossing(readings: Readings, window_start: int, is_morning: bool) -> Option<int> {
    if is_bracketed(readings.at_start, readings.at_end, is_morning) {
        let (low, high) = half_day(window_start, is_morning);
        Some(bisect(readings.halvings, low, high, is_morning))
    } else {
        None
    }
}

/// The last bracket lies inside the first, and the bisection ends inside
/// it, before its upper end unless the two ends are one.
pub proof fn lemma_bisect_stays_inside(
    readings: Seq<Reading>,
    low: int,
    high: int,
    is_morning: bool,
)
    requires
        low <= high,
    ensures
        ({
            let (l, h) = bracket_after(readings, low, high, is_morning);
            low <= l <= bisect(readings, low, high, is_morning) <= h <= high
        }),
        low < high ==> bisect(readings, low, high, is_morning) < high,
    decreases readings.len(),
{
    if readings.len() > 0 {
        let (l, h) = narrowed(low, high, readings[0], is_morning);
        lemma_bisect_stays_inside(readings.drop_first(), l, h, is_morning);
    }
}

/// A bracket of at most two to the power of the number of readings ends no
/// more than a second wide. Twenty halvings bring a half day of 43200
/// seconds down to that.
pub proof fn lemma_bisect_resolution(
    readings: Seq<Reading>,
    low: int,
    high: int,
    is_morning: bool,
)
    requires
        low <= high,
        high - low <= pow2(readings.len()),
    ensures
        ({
            let (l, h) = bracket_after(readings, low, high, is_morning);
            h - l <= 1
        }),
        readings.len() == HALVINGS ==> pow2(readings.len()) >= HALF_DAY,
    decreases readings.len(),
{
    if readings.len() > 0 {
        let (l, h) = narrowed(low, high, readings[0], is_morning);
        lemma_bisect_resolution(readings.drop_first(), l, h, is_morning);
    }
    if readings.len() == HALVINGS {
        reveal_with_fuel(pow2, 21);
        assert(pow2(20) == 1048576);
    }
}

impl Bracket {
    /// Whether the bracket is in order and within the limits of a search.
    pub open spec fn wf(self) -> bool {
        -WINDOW_LIMIT <= self.low <= self.high <= WINDOW_LIMIT + 2 * HALF_DAY
    }

    /// The half day that is searched.
    pub fn of_half_day(window_start: i64, is_morning: bool) -> (r: Bracket)
        requires
            -WINDOW_LIMIT <= window_start <= WINDOW_LIMIT,
        ensures
            (r.low as int, r.high as int) == half_day(window_start as int, is_morning),
            r.wf(),
    {
        if is_morning {
            Bracket { low: window_start, high: window_start + HALF_DAY }
        } else {
            Bracket { low: window_start + HALF_DAY, high: window_start + 2 * HALF_DAY }
        }
    }

    /// The instant halfway between the two ends, cut to whole seconds.
    pub fn midpoint(&self) -> (r: i64)
        requires
            self.wf(),
        ensures
            r == midpoint(self.low as int, self.high as int),
            self.low <= r <= self.high,
    {
        self.low + (self.high - self.low) / 2
    }

    /// The half of the bracket that holds the crossing, going by the reading
    /// at its midpoint.
    pub fn narrow(&self, reading: Reading, is_morning: bool) -> (r: Bracket)
        requires
            self.wf(),
        ensures
            (r.low as int, r.high as int) == narrowed(
                self.low as int,
                self.high as int,
                reading,
                is_morning,
            ),
            r.wf(),
    {
        let mid = self.midpoint();
        let later = if is_morning {
            reading == Reading::Below
        } else {
            reading == Reading::Above
        };
        if later {
            Bracket { low: mid, high: self.high }
        } else {
            Bracket { low: self.low, high: mid }
        }
    }
}

/// Whether the readings are what `sun` said of the target: at the two ends
/// of the half day and, where these hold the crossing, at the midpoint of
/// each bracket in its turn.
pub open spec fn were_read<F: Fn(i64, i32) -> Reading>(
    sun: &F,
    target: i32,
    readings: Readings,
    window_start: int,
    is_morning: bool,
) -> bool {
    let (low, high) = half_day(window_start, is_morning);
    &&& call_ensures(sun, (low as i64, target), readings.at_start)
    &&& call_ensures(sun, (high as i64, target), readings.at_end)
    &&& is_bracketed(readings.at_start, readings.at_end, is_morning) ==> forall|k: int|
        0 <= k < readings.halvings.len() ==> call_ensures(
            sun,
            (bisect(readings.halvings.take(k), low, high, is_morning) as i64, target),
            #[trigger] readings.halvings[k],
        )
}

/// Whether the half day holds the crossing, going by the readings at its
/// two ends.
pub fn bracketed(at_start: Reading, at_end: Reading, is_morning: bool) -> (r: bool)
    ensures
        r == is_bracketed(at_start, at_end, is_morning),
{
    if is_morning {
        at_start != Reading::Above && at_end != Reading::Below
    } else {
        at_start != Reading::Below && at_end != Reading::Above
    }
}

/// Finds the time when the sun reaches a specific altitude using binary
/// search.
///
/// * `window_start` - The start of the day that is searched, in seconds
///   since the start of 1 January 1970.
/// * `target` - Target sun altitude in thousandths of a degree (negative for
///   below horizon).
/// * `is_morning` - True to search the first half of the day, false for the
///   second.
/// * `sun` - Says where the sun stands at an instant, compared with an
///   altitude.
///
/// The sun is read at the two ends of the half day, and then once for each
/// of the twenty halvings. Where the two ends do not have the crossing
/// between them, the answer is `SolarEventNotFound`.
pub fn find_sun_altitude_time<F: Fn(i64, i32) -> Reading>(
    window_start: i64,
    target: i32,
    is_morning: bool,
    sun: &F,
) -> (r: Result<i64, ShaumError>)
    requires
        -WINDOW_LIMIT <= window_start <= WINDOW_LIMIT,
        forall|t: i64, a: i32| call_requires(sun, (t, a)),
    ensures
        exists|readings: Readings|
            readings.halvings.len() == HALVINGS && were_read(
                sun,
                target,
                readings,
                window_start as int,
                is_morning,
            ) && match #[trigger] crossing(readings, window_start as int, is_morning) {
                Some(t) => r matches Ok(found) && found == t,
                None => r == Err::<i64, ShaumError>(ShaumError::SolarEventNotFound),
            },
        r matches Ok(t) ==> half_day(window_start as int, is_morning).0 <= t < half_day(
            window_start as int,
            is_morning,
        ).1,
        r matches Err(e) ==> e == ShaumError::SolarEventNotFound,
{
    let whole = Bracket::of_half_day(window_start, is_morning);
    let at_start = sun(whole.low, target);
    let at_end = sun(whole.high, target);
    if !bracketed(at_start, at_end, is_morning) {
        proof {
            let read = Readings {
                at_start,
                at_end,
                halvings: Seq::new(HALVINGS as nat, |i: int| Reading::Level),
            };
            assert(crossing(read, window_start as int, is_morning) is None);
            assert(were_read(sun, target, read, window_start as int, is_morning));
        }
        return Err(ShaumError::SolarEventNotFound);
    }
    let mut bracket = whole;
    let ghost mut taken: Seq<Reading> = Seq::empty();
    let mut i: u32 = 0;
    while i < HALVINGS
        invariant
            i <= HALVINGS,
            taken.len() == i,
            bracket.wf(),
            whole.low <= bracket.low <= bracket.high <= whole.high,
            forall|t: i64, a: i32| call_requires(sun, (t, a)),
            forall|rest: Seq<Reading>|
                bracket_after(taken + rest, whole.low as int, whole.high as int, is_morning)
                    == #[trigger] bracket_after(
                    rest,
                    bracket.low as int,
                    bracket.high as int,
                    is_morning,
                ),
            forall|k: int|
                0 <= k < taken.len() ==> call_ensures(
                    sun,
                    (
                        bisect(taken.take(k), whole.low as int, whole.high as int, is_morning) as i64,
                        target,
                    ),
                    #[trigger] taken[k],
                ),
        decreases HALVINGS - i,
    {
        let probe = bracket.midpoint();
        let reading = sun(probe, target);
        let next = bracket.narrow(reading, is_morning);
        proof {
            let before = taken;
            let extended = taken.push(reading);
            let none = Seq::<Reading>::empty();
            assert(before + none == before);
            assert(bracket_after(none, bracket.low as int, bracket.high as int, is_morning) == (
                bracket.low as int,
                bracket.high as int,
            ));
            assert(bisect(before, whole.low as int, whole.high as int, is_morning) == probe);
            assert forall|k: int| 0 <= k < extended.len() implies call_ensures(
                sun,
                (
                    bisect(extended.take(k), whole.low as int, whole.high as int, is_morning) as i64,
                    target,
                ),
                #[trigger] extended[k],
            ) by {
                if k < before.len() {
                    assert(extended.take(k) == before.take(k));
                    assert(extended[k] == before[k]);
                } else {
                    assert(extended.take(k) == before);
                }
            }
            assert forall|rest: Seq<Reading>|
                bracket_after(extended + rest, whole.low as int, whole.high as int, is_morning)
                    == #[trigger] bracket_after(
                    rest,
                    next.low as int,
                    next.high as int,
                    is_morning,
                ) by {
                let tail = seq![reading] + rest;
                assert(extended + rest == before + tail);
                assert(tail.drop_first() == rest);
                assert(bracket_after(tail, bracket.low as int, bracket.high as int, is_morning)
                    == bracket_after(rest, next.low as int, next.high as int, is_morning));
            }
            taken = extended;
        }
        bracket = next;
        i = i + 1;
    }
    let found = bracket.midpoint();
    proof {
        let none = Seq::<Reading>::empty();
        assert(taken + none == taken);
        assert(bracket_after(none, bracket.low as int, bracket.high as int, is_morning) == (
            bracket.low as int,
            bracket.high as int,
        ));
        let read = Readings { at_start, at_end, halvings: taken };
        assert(crossing(read, window_start as int, is_morning) == Some(found as int));
        assert(were_read(sun, target, read, window_start as int, is_morning));
        lemma_bisect_stays_inside(taken, whole.low as int, whole.high as int, is_morning);
    }
    Ok(found)
}

} // verus!
