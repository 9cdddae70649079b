//! The Daud schedule: fast one day, abstain the next.
//!
//! The schedule walks the days from a start to an end and takes turns. A
//! day on which fasting is forbidden is never a day of the schedule: with
//! the strategy Skip the turn is lost, with Postpone it is kept for the next
//! day. A day for which a strict context gives no analysis is answered with
//! the error of that day, and the turn is kept.

use crate::calendar::ShaumError;
use crate::civil::{Date, MAX_DAY_NUMBER};
use crate::context::{ContextView, RuleContext};
use crate::rules::{analyze, day_outcome, Outcome};
use crate::types::{DaudStrategy, FastingStatus};
use vstd::prelude::*;

verus! {

/// What a schedule gives for a day.
pub enum DaudStep {
    /// The day with this number is a day to fast.
    Fast(int),
    /// The day could not be judged: the out-of-range error that names the
    /// day with this number.
    Refused(int),
}

/// Whether fasting is forbidden on the day with number `day`, as the rule
/// engine judges it with this context.
pub open spec fn is_haram_day(context: ContextView, day: int) -> bool {
    day_outcome(context, day) matches Outcome::Analysis(a) && a.status == FastingStatus::Haram
}

/// Whose turn it is after a forbidden day.
pub open spec fn turn_after_haram(strategy: DaudStrategy, should_fast: bool) -> bool {
    match strategy {
        DaudStrategy::Skip => !should_fast,
        DaudStrategy::Postpone => should_fast,
    }
}

/// What the schedule gives from `current` to `end`, where `should_fast`
/// says whether `current` is a turn to fast.
///
/// Each day is judged by the rule engine. A day that it cannot judge is
/// given as refused, and the turn stays. A forbidden day is passed over, and
/// the strategy says whose turn is next. Any other day is given if it is a
/// turn to fast, and the turn changes. The walk ends after `end`, and also
/// at the last day of the calendar, which has no day after it.
pub open spec fn schedule(context: ContextView, current: int, end: int, should_fast: bool) -> Seq<
    DaudStep,
>
    decreases end - current + 1,
{
    if current > end || current >= MAX_DAY_NUMBER {
        Seq::<DaudStep>::empty()
    } else {
        match day_outcome(context, current) {
            Outcome::OutOfRange(day) => seq![DaudStep::Refused(day)] + schedule(
                context,
                current + 1,
                end,
                should_fast,
            ),
            Outcome::Analysis(a) => if a.status == FastingStatus::Haram {
                schedule(
                    context,
                    current + 1,
                    end,
                    turn_after_haram(context.daud_strategy, should_fast),
                )
            } else if should_fast {
                seq![DaudStep::Fast(current)] + schedule(context, current + 1, end, false)
            } else {
                schedule(context, current + 1, end, true)
            },
        }
    }
}

/// The schedule never gives a day on which fasting is forbidden, whatever
/// the strategy, nor a day that could not be judged. Its days lie between
/// its start and its end, in ascending order and at least two days apart.
/// After a day of abstaining the first day to fast is a later one.
pub proof fn lemma_schedule(context: ContextView, current: int, end: int, should_fast: bool)
    ensures
        ({
            let s = schedule(context, current, end, should_fast);
            &&& forall|i: int|
                0 <= i < s.len() ==> (#[trigger] s[i] matches DaudStep::Fast(day) ==> current
                    <= day <= end && !is_haram_day(context, day) && day_outcome(context, day)
                    is Analysis)
            &&& forall|i: int|
                0 <= i < s.len() && !should_fast ==> (#[trigger] s[i] matches DaudStep::Fast(day)
                    ==> current < day)
            &&& forall|i: int, j: int|
                0 <= i < j < s.len() ==> (#[trigger] s[i] matches DaudStep::Fast(a) ==> (
                #[trigger] s[j] matches DaudStep::Fast(b) ==> a + 2 <= b))
        }),
    decreases end - current + 1,
{
    let s = schedule(context, current, end, should_fast);
    if current > end || current >= MAX_DAY_NUMBER {
        assert(s.len() == 0);
    } else {
        match day_outcome(context, current) {
            Outcome::OutOfRange(day) => {
                lemma_schedule(context, current + 1, end, should_fast);
                let rest = schedule(context, current + 1, end, should_fast);
                assert(s == seq![DaudStep::Refused(day)] + rest);
                assert forall|i: int| 0 <= i < s.len() implies (#[trigger] s[i] matches DaudStep::Fast(
                    d,
                ) ==> current <= d <= end && !is_haram_day(context, d) && day_outcome(context, d)
                    is Analysis && (!should_fast ==> current < d)) by {
                    if i > 0 {
                        assert(s[i] == rest[i - 1]);
                    }
                }
                assert forall|i: int, j: int| 0 <= i < j < s.len() implies (
                #[trigger] s[i] matches DaudStep::Fast(a) ==> (#[trigger] s[j] matches DaudStep::Fast(
                    b,
                ) ==> a + 2 <= b)) by {
                    assert(s[j] == rest[j - 1]);
                    if i > 0 {
                        assert(s[i] == rest[i - 1]);
                    }
                }
            },
            Outcome::Analysis(a) => {
                if a.status == FastingStatus::Haram {
                    let turn = turn_after_haram(context.daud_strategy, should_fast);
                    lemma_schedule(context, current + 1, end, turn);
                    assert(s == schedule(context, current + 1, end, turn));
                } else if should_fast {
                    lemma_schedule(context, current + 1, end, false);
                    let rest = schedule(context, current + 1, end, false);
                    assert(s == seq![DaudStep::Fast(current)] + rest);
                    assert forall|i: int| 0 <= i < s.len() implies (#[trigger] s[i] matches DaudStep::Fast(
                        d,
                    ) ==> current <= d <= end && !is_haram_day(context, d) && day_outcome(
                        context,
                        d,
                    ) is Analysis) by {
                        if i > 0 {
                            assert(s[i] == rest[i - 1]);
                        }
                    }
                    assert forall|i: int, j: int| 0 <= i < j < s.len() implies (
                    #[trigger] s[i] matches DaudStep::Fast(x) ==> (
                    #[trigger] s[j] matches DaudStep::Fast(y) ==> x + 2 <= y)) by {
                        assert(s[j] == rest[j - 1]);
                        if i > 0 {
                            assert(s[i] == rest[i - 1]);
                        }
                    }
                } else {
                    lemma_schedule(context, current + 1, end, true);
                    assert(s == schedule(context, current + 1, end, true));
                }
            },
        }
    }
}

/// Whether `item` is what the iterator hands out for `step`: the date of a
/// day to fast, or the out-of-range error of a day that could not be
/// judged.
pub open spec fn is_item(item: Result<Date, ShaumError>, step: DaudStep) -> bool {
    match step {
        DaudStep::Fast(day) => item matches Ok(date) && date@ == day,
        DaudStep::Refused(day) => item matches Err(e) && e.is_out_of_range_for(day),
    }
}

/// Whether `items` are what the iterator hands out for `steps`, one for
/// one.
pub open spec fn are_items(items: Seq<Result<Date, ShaumError>>, steps: Seq<DaudStep>) -> bool {
    items.len() == steps.len() && forall|i: int|
        0 <= i < items.len() ==> is_item(#[trigger] items[i], steps[i])
}

/// Daud fasting iterator.
pub struct DaudIterator {
    current: Date,
    end: Date,
    should_fast: bool,
    context: RuleContext,
    debt: u32,
}

impl DaudIterator {
    /// The day number of the day that the walk has reached.
    pub closed spec fn cursor(&self) -> int {
        self.current@
    }

    /// The day number of the last day of the walk.
    pub closed spec fn last_day(&self) -> int {
        self.end@
    }

    /// Whether the day that the walk has reached is a turn to fast.
    pub closed spec fn fasting_turn(&self) -> bool {
        self.should_fast
    }

    /// The context that the days are judged with.
    pub closed spec fn context(&self) -> ContextView {
        self.context@
    }

    /// The fasts owed.
    pub closed spec fn spec_debt(&self) -> u32 {
        self.debt
    }

    /// What the schedule has yet to give.
    pub open spec fn remaining(&self) -> Seq<DaudStep> {
        schedule(self.context(), self.cursor(), self.last_day(), self.fasting_turn())
    }

    /// A schedule from `start` to `end`, both included, that begins with a
    /// turn to fast and owes nothing.
    pub fn new(start: Date, end: Date, context: RuleContext) -> (r: DaudIterator)
        ensures
            r.cursor() == start@,
            r.last_day() == end@,
            r.fasting_turn(),
            r.context() == context@,
            r.spec_debt() == 0,
    {
        DaudIterator { current: start, end, should_fast: true, context, debt: 0 }
    }

    /// A builder for a schedule that starts on `date`.
    pub fn starting_from(date: Date) -> (r: DaudScheduleBuilder)
        ensures
            r.start@ == date@,
            r.end is None,
            r.context@ == ContextView::plain(),
    {
        DaudScheduleBuilder::new(date)
    }

    /// The fasts owed. The schedule keeps none: a postponed turn is taken on
    /// the next day that allows it.
    pub fn debt(&self) -> (r: u32)
        ensures
            r == self.spec_debt(),
    {
        self.debt
    }

    /// What the schedule gives next, or `None` when there is nothing left:
    /// the next day to fast, or the error of a day that the context gives no
    /// analysis for. The walk stops behind the day that it answers with.
    pub fn next(&mut self) -> (r: Option<Result<Date, ShaumError>>)
        ensures
            final(self).context() == old(self).context(),
            final(self).last_day() == old(self).last_day(),
            final(self).spec_debt() == old(self).spec_debt(),
            final(self).cursor() >= old(self).cursor(),
            match r {
                Some(item) => old(self).remaining().len() > 0 && is_item(
                    item,
                    old(self).remaining()[0],
                ) && final(self).remaining() == old(self).remaining().drop_first()
                    && old(self).cursor() < final(self).cursor() <= old(self).last_day() + 1,
                None => old(self).remaining() == Seq::<DaudStep>::empty() && final(self).remaining()
                    == Seq::<DaudStep>::empty(),
            },
            r matches Some(Ok(day)) ==> final(self).cursor() == day@ + 1
                && !final(self).fasting_turn() && !is_haram_day(old(self).context(), day@),
    {
        while !self.current.is_after(&self.end)
            invariant
                self.context() == old(self).context(),
                self.last_day() == old(self).last_day(),
                self.spec_debt() == old(self).spec_debt(),
                self.cursor() >= old(self).cursor(),
                self.remaining() == old(self).remaining(),
            decreases self.last_day() - self.cursor() + 1,
        {
            let date = self.current;
            let next = match date.succ_opt() {
                Some(next) => next,
                None => {
                    return None;
                },
            };
            let ghost before = self.remaining();
            let judged = analyze(date.noon(), &self.context, None);
            self.current = next;
            match judged {
                Err(e) => {
                    proof {
                        let rest = self.remaining();
                        assert(before == seq![before[0]] + rest);
                        assert(before.drop_first() =~= rest);
                    }
                    return Some(Err(e));
                },
                Ok(analysis) => {
                    if analysis.primary_status.is_haram() {
                        match self.context.daud_strategy {
                            DaudStrategy::Skip => {
                                self.should_fast = !self.should_fast;
                            },
                            DaudStrategy::Postpone => {},
                        }
                    } else if self.should_fast {
                        self.should_fast = !self.should_fast;
                        proof {
                            let rest = self.remaining();
                            assert(before == seq![DaudStep::Fast(date@)] + rest);
                            assert(before.drop_first() =~= rest);
                        }
                        return Some(Ok(date));
                    } else {
                        self.should_fast = !self.should_fast;
                    }
                },
            }
        }
        None
    }

    /// What the schedule has yet to give, all at once.
    pub fn collect(&mut self) -> (r: Vec<Result<Date, ShaumError>>)
        ensures
            final(self).context() == old(self).context(),
            final(self).last_day() == old(self).last_day(),
            final(self).spec_debt() == old(self).spec_debt(),
            are_items(r@, old(self).remaining()),
            final(self).remaining() == Seq::<DaudStep>::empty(),
    {
        let mut items: Vec<Result<Date, ShaumError>> = Vec::new();
        loop
            invariant
                self.context() == old(self).context(),
                self.last_day() == old(self).last_day(),
                self.spec_debt() == old(self).spec_debt(),
                items@.len() <= old(self).remaining().len(),
                forall|i: int|
                    0 <= i < items@.len() ==> is_item(#[trigger] items@[i], old(self).remaining()[i]),
                self.remaining() == old(self).remaining().skip(items@.len() as int),
            ensures
                self.context() == old(self).context(),
                self.last_day() == old(self).last_day(),
                self.spec_debt() == old(self).spec_debt(),
                are_items(items@, old(self).remaining()),
                self.remaining() == Seq::<DaudStep>::empty(),
            decreases self.last_day() - self.cursor() + 1,
        {
            let ghost given = items@.len() as int;
            let ghost left = self.remaining();
            match self.next() {
                Some(item) => {
                    items.push(item);
                    proof {
                        let all = old(self).remaining();
                        assert(left[0] == all[given]);
                        assert(left.drop_first() =~= all.skip(given + 1));
                    }
                },
                None => {
                    proof {
                        let all = old(self).remaining();
                        assert(all.skip(given).len() == all.len() - given);
                    }
                    break ;
                },
            }
        }
        items
    }
}

/// Builder for Daud fasting schedule.
pub struct DaudScheduleBuilder {
    pub start: Date,
    pub end: Option<Date>,
    pub context: RuleContext,
}

/// The number of days that a schedule covers after its start where no end is
/// given.
pub const DEFAULT_SPAN_DAYS: i64 = 365;

impl DaudScheduleBuilder {
    /// The day number of the last day of the schedule that the builder
    /// describes: the end that was given, else a year after the start, or the
    /// last day of the calendar if that comes first.
    pub open spec fn last_day(&self) -> int {
        match self.end {
            Some(end) => end@,
            None => if self.start@ + DEFAULT_SPAN_DAYS <= MAX_DAY_NUMBER {
                self.start@ + DEFAULT_SPAN_DAYS
            } else {
                MAX_DAY_NUMBER as int
            },
        }
    }

    pub fn new(start: Date) -> (r: DaudScheduleBuilder)
        ensures
            r.start == start,
            r.end is None,
            r.context@ == ContextView::plain(),
    {
        DaudScheduleBuilder { start, end: None, context: RuleContext::new() }
    }

    pub fn until(self, end: Date) -> (r: DaudScheduleBuilder)
        ensures
            r == (DaudScheduleBuilder { end: Some(end), ..self }),
    {
        let mut b = self;
        b.end = Some(end);
        b
    }

    pub fn with_context(self, ctx: RuleContext) -> (r: DaudScheduleBuilder)
        ensures
            r == (DaudScheduleBuilder { context: ctx, ..self }),
    {
        let mut b = self;
        b.context = ctx;
        b
    }

    pub fn skip_haram_days(self) -> (r: DaudScheduleBuilder)
        ensures
            r.start == self.start,
            r.end == self.end,
            r.context@ == (ContextView { daud_strategy: DaudStrategy::Skip, ..self.context@ }),
    {
        let mut b = self;
        b.context.daud_strategy = DaudStrategy::Skip;
        b
    }

    pub fn postpone_on_haram(self) -> (r: DaudScheduleBuilder)
        ensures
            r.start == self.start,
            r.end == self.end,
            r.context@ == (ContextView { daud_strategy: DaudStrategy::Postpone, ..self.context@ }),
    {
        let mut b = self;
        b.context.daud_strategy = DaudStrategy::Postpone;
        b
    }

    pub fn build(self) -> (r: DaudIterator)
        ensures
            r.cursor() == self.start@,
            r.last_day() == self.last_day(),
            r.fasting_turn(),
            r.context() == self.context@,
            r.spec_debt() == 0,
    {
        proof {
            use_type_invariant(&self.start);
        }
        let end = match self.end {
            Some(end) => end,
            None => match self.start.checked_add_days(DEFAULT_SPAN_DAYS) {
                Some(end) => end,
                None => Date::from_num_days_from_ce_opt(MAX_DAY_NUMBER).unwrap(),
            },
        };
        DaudIterator::new(self.start, end, self.context)
    }
}

/// Creates Daud schedule iterator.
pub fn generate_daud_schedule(start: Date, end: Date, context: RuleContext) -> (r: DaudIterator)
    ensures
        r.cursor() == start@,
        r.last_day() == end@,
        r.fasting_turn(),
        r.context() == context@,
        r.spec_debt() == 0,
        r.remaining() == schedule(context@, start@, end@, true),
{
    DaudIterator::new(start, end, context)
}

} // verus!
