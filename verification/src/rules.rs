//! The rule engine: from a day's Hijri date and weekday to its fasting
//! status, with the reasons and a trace of the evaluation.
//!
//! The evaluation runs in a fixed order. A day on which fasting is
//! forbidden ends it at once. Otherwise every occasion that applies is
//! recorded and the status is the highest among them; a Friday or Saturday
//! without any occasion is disliked; the custom rules come last and can only
//! raise the status.

use crate::calendar::{
    adjusted_day, clamped, hijri_of_day, is_representable, rejected_day, to_hijri, HijriDate,
    ShaumError, HIJRI_FIRST_DAY, HIJRI_LAST_DAY,
};
use crate::civil::{civil_of, date_text, weekday_of, Date, DateTime, Weekday};
use crate::types::{
    is_haram_name, AnalysisView, FastingAnalysis, FastingStatus, FastingType, Madhab, ReasonList,
    RuleTrace, TraceCode, TraceList, TraceView,
};
use crate::constants::{
    DAY_ARAFAH, DAY_ASHURA, DAY_EID_AL_ADHA, DAY_EID_AL_FITR, DAY_TASUA, FIRST_DAY_OF_TASHRIQ,
    FIRST_WHITE_DAY, LAST_DAY_OF_TASHRIQ, LAST_WHITE_DAY, MONTH_DHUL_HIJJAH, MONTH_MUHARRAM,
    MONTH_RAMADHAN, MONTH_SHAWWAL,
};
use crate::context::{ContextView, RuleContext};
use vstd::prelude::*;
use vstd::string::StringExecFns;

verus! {

/// What a custom rule says of a day: nothing, or a status and the name of
/// its reason.
pub type Ruling = Option<(FastingStatus, Seq<char>)>;

/// The ruling that an answer of a custom rule stands for.
pub open spec fn ruling_of(answer: Option<(FastingStatus, FastingType)>) -> Ruling {
    match answer {
        Some((status, reason)) => Some((status, reason@)),
        None => None,
    }
}

/// The rulings that the answers of the custom rules stand for.
pub open spec fn rulings_of(answers: Seq<Option<(FastingStatus, FastingType)>>) -> Seq<Ruling> {
    answers.map_values(|a: Option<(FastingStatus, FastingType)>| ruling_of(a))
}

/// Custom rule trait.
///
/// A rule is asked about a day that fasting is not forbidden on, and may
/// answer with a status and its reason. The engine takes the answer as it
/// comes: it can raise the status of the day, never lower it.
///
/// A rule is a function of the day that it is asked about: asked again
/// about the same day, it says the same. `ruling` is that function, and
/// `evaluate` computes it.
pub trait CustomFastingRule {
    /// What the rule says of a day.
    spec fn ruling(
        &self,
        date: Date,
        hijri_year: usize,
        hijri_month: usize,
        hijri_day: usize,
    ) -> Option<(FastingStatus, FastingType)>;

    fn evaluate(&self, date: Date, hijri_year: usize, hijri_month: usize, hijri_day: usize) -> (r:
        Option<(FastingStatus, FastingType)>)
        ensures
            ruling_of(r) == ruling_of(self.ruling(date, hijri_year, hijri_month, hijri_day)),
    ;
}

/// The status that a finding of the engine carries.
pub open spec fn code_status(code: TraceCode) -> FastingStatus {
    match code {
        TraceCode::EidAlFitr | TraceCode::EidAlAdha | TraceCode::Tashriq => FastingStatus::Haram,
        TraceCode::Ramadhan => FastingStatus::Wajib,
        TraceCode::Arafah | TraceCode::Ashura => FastingStatus::SunnahMuakkadah,
        TraceCode::Tasua
        | TraceCode::AyyamulBidh
        | TraceCode::Monday
        | TraceCode::Thursday
        | TraceCode::Shawwal
        | TraceCode::Daud => FastingStatus::Sunnah,
        TraceCode::FridaySingledOut | TraceCode::SaturdaySingledOut => FastingStatus::Makruh,
        TraceCode::Custom | TraceCode::Debug => FastingStatus::Mubah,
    }
}

/// The name of the reason that a finding of the engine records.
pub open spec fn code_reason(code: TraceCode) -> Seq<char> {
    match code {
        TraceCode::FridaySingledOut => "FridayExclusive"@,
        TraceCode::SaturdaySingledOut => "SaturdayExclusive"@,
        _ => code.spec_name(),
    }
}

/// The trace entry of a finding of the engine.
pub open spec fn code_trace(code: TraceCode) -> TraceView {
    TraceView { code, details: None }
}

/// The trace entry with code `Debug` and the given text.
pub open spec fn note(text: Seq<char>) -> TraceView {
    TraceView { code: TraceCode::Debug, details: Some(text) }
}

/// The state of an evaluation: the status reached, the reasons found and the
/// trace so far.
pub struct Verdict {
    pub status: FastingStatus,
    pub reasons: Seq<Seq<char>>,
    pub traces: Seq<TraceView>,
}

impl Verdict {
    /// The state before any rule has spoken, with the entries that the trace
    /// already holds.
    pub open spec fn start(prelude: Seq<TraceView>) -> Verdict {
        Verdict {
            status: FastingStatus::Mubah,
            reasons: Seq::<Seq<char>>::empty(),
            traces: prelude,
        }
    }

    /// The state after the engine has found `code` to apply: the reason and
    /// the trace entry are added, and the status is raised to that of the
    /// finding if it was lower.
    pub open spec fn found(self, code: TraceCode) -> Verdict {
        Verdict {
            status: self.status.spec_max(code_status(code)),
            reasons: self.reasons.push(code_reason(code)),
            traces: self.traces.push(code_trace(code)),
        }
    }

    /// The state after `code` has been recorded, if `applies` holds; the
    /// state as it was, if not.
    pub open spec fn found_if(self, applies: bool, code: TraceCode) -> Verdict {
        if applies {
            self.found(code)
        } else {
            self
        }
    }

    /// The state after a custom rule has given `ruling`.
    pub open spec fn ruled(self, ruling: Ruling) -> Verdict {
        match ruling {
            Some((status, reason)) => Verdict {
                status: self.status.spec_max(status),
                reasons: self.reasons.push(reason),
                traces: self.traces.push(
                    TraceView { code: TraceCode::Custom, details: Some(reason) },
                ),
            },
            None => self,
        }
    }

    /// The state after the custom rules have given `rulings`, in that order.
    pub open spec fn ruled_all(self, rulings: Seq<Ruling>) -> Verdict
        decreases rulings.len(),
    {
        if rulings.len() == 0 {
            self
        } else {
            self.ruled_all(rulings.drop_last()).ruled(rulings.last())
        }
    }
}

/// The finding that forbids a fast on the Hijri date, if there is one: the
/// two Eids and the days of Tashriq.
pub open spec fn haram_code(hijri: HijriDate) -> Option<TraceCode> {
    if hijri.month == MONTH_SHAWWAL && hijri.day == DAY_EID_AL_FITR {
        Some(TraceCode::EidAlFitr)
    } else if hijri.month == MONTH_DHUL_HIJJAH && hijri.day == DAY_EID_AL_ADHA {
        Some(TraceCode::EidAlAdha)
    } else if hijri.month == MONTH_DHUL_HIJJAH && FIRST_DAY_OF_TASHRIQ <= hijri.day
        <= LAST_DAY_OF_TASHRIQ {
        Some(TraceCode::Tashriq)
    } else {
        None
    }
}

/// The state after the obligatory and the recommended occasions of the day
/// have been recorded, in their fixed order.
pub open spec fn merits(v: Verdict, hijri: HijriDate, weekday: Weekday) -> Verdict {
    v.found_if(hijri.month == MONTH_RAMADHAN, TraceCode::Ramadhan).found_if(
        hijri.month == MONTH_DHUL_HIJJAH && hijri.day == DAY_ARAFAH,
        TraceCode::Arafah,
    ).found_if(
        hijri.month == MONTH_MUHARRAM && hijri.day == DAY_ASHURA,
        TraceCode::Ashura,
    ).found_if(
        hijri.month == MONTH_MUHARRAM && hijri.day == DAY_TASUA,
        TraceCode::Tasua,
    ).found_if(
        FIRST_WHITE_DAY <= hijri.day <= LAST_WHITE_DAY,
        TraceCode::AyyamulBidh,
    ).found_if(weekday == Weekday::Mon, TraceCode::Monday).found_if(
        weekday == Weekday::Thu,
        TraceCode::Thursday,
    ).found_if(hijri.month == MONTH_SHAWWAL && hijri.day > DAY_EID_AL_FITR, TraceCode::Shawwal)
}

/// The state after the rule on Fridays and Saturdays: where the status is
/// still Mubah, fasting on such a day alone is disliked.
pub open spec fn discouraged(v: Verdict, weekday: Weekday) -> Verdict {
    if v.status == FastingStatus::Mubah {
        v.found_if(weekday == Weekday::Fri, TraceCode::FridaySingledOut).found_if(
            weekday == Weekday::Sat,
            TraceCode::SaturdaySingledOut,
        )
    } else {
        v
    }
}

/// The outcome of the whole evaluation of a day: with a trace that already
/// holds `prelude`, a Hijri date, a weekday and the rulings of the custom
/// rules.
pub open spec fn day_verdict(
    prelude: Seq<TraceView>,
    hijri: HijriDate,
    weekday: Weekday,
    rulings: Seq<Ruling>,
) -> Verdict {
    match haram_code(hijri) {
        Some(code) => Verdict::start(prelude).found(code),
        None => discouraged(merits(Verdict::start(prelude), hijri, weekday), weekday).ruled_all(
            rulings,
        ),
    }
}

/// An evaluation in progress.
struct Evaluation {
    status: FastingStatus,
    reasons: ReasonList,
    traces: TraceList,
}

impl View for Evaluation {
    type V = Verdict;

    closed spec fn view(&self) -> Verdict {
        Verdict { status: self.status, reasons: self.reasons@, traces: self.traces@ }
    }
}

/// The reason that a finding of the engine records.
fn reason_for(code: TraceCode) -> (r: FastingType)
    ensures
        r@ == code_reason(code),
{
    match code {
        TraceCode::FridaySingledOut => FastingType::FridayExclusive(),
        TraceCode::SaturdaySingledOut => FastingType::SaturdayExclusive(),
        _ => FastingType::new(code.name()),
    }
}

/// The status that a finding of the engine carries.
fn status_for(code: TraceCode) -> (r: FastingStatus)
    ensures
        r == code_status(code),
{
    match code {
        TraceCode::EidAlFitr | TraceCode::EidAlAdha | TraceCode::Tashriq => FastingStatus::Haram,
        TraceCode::Ramadhan => FastingStatus::Wajib,
        TraceCode::Arafah | TraceCode::Ashura => FastingStatus::SunnahMuakkadah,
        TraceCode::Tasua
        | TraceCode::AyyamulBidh
        | TraceCode::Monday
        | TraceCode::Thursday
        | TraceCode::Shawwal
        | TraceCode::Daud => FastingStatus::Sunnah,
        TraceCode::FridaySingledOut | TraceCode::SaturdaySingledOut => FastingStatus::Makruh,
        TraceCode::Custom | TraceCode::Debug => FastingStatus::Mubah,
    }
}

impl Evaluation {
    fn start(traces: TraceList) -> (r: Evaluation)
        ensures
            r@ == Verdict::start(traces@),
    {
        Evaluation { status: FastingStatus::Mubah, reasons: ReasonList::new(), traces }
    }

    fn found(&mut self, code: TraceCode)
        ensures
            final(self)@ == old(self)@.found(code),
    {
        self.reasons.push(reason_for(code));
        self.traces.push(RuleTrace::new(code, None));
        self.status = self.status.max(status_for(code));
    }

    fn found_if(&mut self, applies: bool, code: TraceCode)
        ensures
            final(self)@ == old(self)@.found_if(applies, code),
    {
        if applies {
            self.found(code);
        }
    }

    fn ruled(&mut self, answer: Option<(FastingStatus, FastingType)>)
        ensures
            final(self)@ == old(self)@.ruled(ruling_of(answer)),
    {
        if let Some((status, reason)) = answer {
            let text = String::from_str(reason.as_str());
            self.reasons.push(reason);
            self.traces.push(RuleTrace::new(TraceCode::Custom, Some(text)));
            self.status = self.status.max(status);
        }
    }
}

/// The finding that forbids a fast on the Hijri date, if there is one.
pub fn find_haram(hijri: &HijriDate) -> (r: Option<TraceCode>)
    ensures
        r == haram_code(*hijri),
{
    if hijri.month == MONTH_SHAWWAL && hijri.day == DAY_EID_AL_FITR {
        Some(TraceCode::EidAlFitr)
    } else if hijri.month == MONTH_DHUL_HIJJAH && hijri.day == DAY_EID_AL_ADHA {
        Some(TraceCode::EidAlAdha)
    } else if hijri.month == MONTH_DHUL_HIJJAH && FIRST_DAY_OF_TASHRIQ <= hijri.day && hijri.day
        <= LAST_DAY_OF_TASHRIQ {
        Some(TraceCode::Tashriq)
    } else {
        None
    }
}

/// The text of the trace entry for an instant after sunset.
pub open spec fn rollover_note() -> TraceView {
    note("Post-Maghrib: Effective date +1"@)
}

/// The trace entry for a day outside the supported years: it names the
/// day that counts.
pub open spec fn clamp_note(day: int) -> TraceView {
    note(
        "Date "@ + date_text(civil_of(day))
            + " outside supported Hijri range (1938-2076). Clamping applied."@,
    )
}

/// Whether the instant counts towards the next day: a sunset is given and
/// the instant is later.
pub open spec fn rolls_over(datetime: DateTime, maghrib: Option<DateTime>) -> bool {
    match maghrib {
        Some(sunset) => datetime.later_than(sunset),
        None => false,
    }
}

/// The nearest day of the supported range.
pub open spec fn clamp_to_hijri_range(n: int) -> int {
    if n < HIJRI_FIRST_DAY {
        HIJRI_FIRST_DAY as int
    } else if n > HIJRI_LAST_DAY {
        HIJRI_LAST_DAY as int
    } else {
        n
    }
}

/// How an analysis ends.
pub enum Outcome {
    /// With what the analysis says.
    Analysis(AnalysisView),
    /// With the out-of-range error that names the day with this number.
    OutOfRange(int),
}

/// What the trace holds before the rules speak, where `day` is the day
/// that counts.
pub open spec fn prelude(rolled: bool, replaced: bool, day: int) -> Seq<TraceView> {
    let first = if rolled {
        seq![rollover_note()]
    } else {
        Seq::<TraceView>::empty()
    };
    if replaced {
        first.push(clamp_note(day))
    } else {
        first
    }
}

/// Where the search for the day of an instant ends.
pub enum Resolution {
    /// With the day that counts, its Hijri date and the trace entries of how
    /// they were found.
    Day { day: int, hijri: HijriDate, prelude: Seq<TraceView> },
    /// With the out-of-range error that names the day with this number.
    OutOfRange(int),
}

/// The day that an instant counts towards, and its Hijri date.
///
/// After sunset the day that counts is the next one. Its Hijri date is that
/// of the day shifted by the adjustment; where that day lies outside the
/// supported years, a strict context ends in the error and a lenient one
/// takes the nearest supported day in its place.
pub open spec fn resolution(
    context: ContextView,
    datetime: DateTime,
    maghrib: Option<DateTime>,
) -> Resolution {
    let today = datetime.day();
    let rolled = rolls_over(datetime, maghrib);
    let effective = if rolled {
        today + 1
    } else {
        today
    };
    let shifted = adjusted_day(effective, context.adjustment);
    let supported = HIJRI_FIRST_DAY <= shifted <= HIJRI_LAST_DAY;
    if rolled && !is_representable(effective) {
        Resolution::OutOfRange(today)
    } else if !supported && context.strict {
        Resolution::OutOfRange(rejected_day(effective, context.adjustment))
    } else {
        Resolution::Day {
            day: effective,
            hijri: hijri_of_day(clamp_to_hijri_range(shifted)),
            prelude: prelude(rolled, !supported, effective),
        }
    }
}

/// The analysis of an instant: the rules are run on the day that the
/// instant counts towards, with the weekday of that day. `rulings` is what
/// the custom rules say of it.
pub open spec fn analysis_outcome(
    context: ContextView,
    datetime: DateTime,
    maghrib: Option<DateTime>,
    rulings: Seq<Ruling>,
) -> Outcome {
    match resolution(context, datetime, maghrib) {
        Resolution::Day { day, hijri, prelude } => Outcome::Analysis(
            evaluation(datetime, day, hijri, prelude, rulings),
        ),
        Resolution::OutOfRange(day) => Outcome::OutOfRange(day),
    }
}

/// The day that an instant counts towards and its Hijri date, with the
/// trace entries of how they were found: what [`resolve`] gives.
pub struct Resolved {
    pub day: Date,
    pub hijri: HijriDate,
    pub traces: TraceList,
}

/// Finds the day that an instant counts towards, and its Hijri date.
///
/// After `maghrib`, where it is given, the day is the next one. The Hijri
/// date is that of the day shifted by the adjustment of the context. Where
/// the shifted day lies outside the supported years, a strict context ends
/// in the error; a lenient one takes the nearest supported day in its
/// place and says so in the trace.
pub fn resolve(datetime: DateTime, context: &RuleContext, maghrib: Option<DateTime>) -> (r: Result<
    Resolved,
    ShaumError,
>)
    ensures
        match resolution(context@, datetime, maghrib) {
            Resolution::Day { day, hijri, prelude } => r matches Ok(found) && found.day@ == day
                && found.hijri == hijri && found.traces@ == prelude,
            Resolution::OutOfRange(day) => r matches Err(e) && e.is_out_of_range_for(day),
        },
        r matches Ok(found) ==> found.hijri.is_month_and_day(),
{
    let mut traces = TraceList::new();
    let mut effective = datetime.date_naive();
    if let Some(sunset) = maghrib {
        if datetime.is_after(&sunset) {
            match effective.succ_opt() {
                Some(next) => {
                    effective = next;
                    traces.push(
                        RuleTrace::new(
                            TraceCode::Debug,
                            Some(String::from_str("Post-Maghrib: Effective date +1")),
                        ),
                    );
                },
                None => {
                    return Err(ShaumError::date_out_of_range(effective));
                },
            }
        }
    }
    let hijri = match to_hijri(effective, context.adjustment) {
        Ok(h) => h,
        Err(e) => {
            if context.strict {
                return Err(e);
            }
            let mut text = String::from_str("Date ");
            text.append(effective.to_text().as_str());
            text.append(" outside supported Hijri range (1938-2076). Clamping applied.");
            traces.push(RuleTrace::new(TraceCode::Debug, Some(text)));
            let wanted: i64 = effective.num_days_from_ce() as i64 + clamped(context.adjustment);
            let nearest: i32 = if wanted < HIJRI_FIRST_DAY as i64 {
                HIJRI_FIRST_DAY
            } else {
                HIJRI_LAST_DAY
            };
            let stand_in = Date::from_num_days_from_ce_opt(nearest).unwrap();
            match to_hijri(stand_in, 0) {
                Ok(h) => h,
                Err(e) => {
                    return Err(e);
                },
            }
        },
    };
    Ok(Resolved { day: effective, hijri, traces })
}

/// Asks each custom rule of the context about a day, in the order of the
/// rules: each answer is what the rule at its place says of the day and its
/// Hijri date.
pub fn consult(context: &RuleContext, day: Date, hijri: &HijriDate) -> (r: Vec<
    Option<(FastingStatus, FastingType)>,
>)
    ensures
        r@.len() == context.custom_rules@.len(),
        forall|i: int|
            0 <= i < r@.len() ==> ruling_of(#[trigger] r@[i]) == ruling_of(
                context.custom_rules@[i].ruling(day, hijri.year, hijri.month, hijri.day),
            ),
        rulings_of(r@) == context@.rulings(day@, *hijri),
{
    let count = context.custom_rules.len();
    let mut answers: Vec<Option<(FastingStatus, FastingType)>> = Vec::new();
    let mut i: usize = 0;
    while i < count
        invariant
            count == context.custom_rules@.len(),
            i <= count,
            answers@.len() == i,
            forall|j: int|
                0 <= j < i ==> ruling_of(#[trigger] answers@[j]) == ruling_of(
                    context.custom_rules@[j].ruling(day, hijri.year, hijri.month, hijri.day),
                ),
        decreases count - i,
    {
        answers.push(context.custom_rules[i].evaluate(day, hijri.year, hijri.month, hijri.day));
        i = i + 1;
    }
    proof {
        day.lemma_of_day();
        assert(rulings_of(answers@) =~= context@.rulings(day@, *hijri));
    }
    answers
}

/// What [`evaluate`] gives.
pub open spec fn evaluation(
    datetime: DateTime,
    day: int,
    hijri: HijriDate,
    prelude: Seq<TraceView>,
    rulings: Seq<Ruling>,
) -> AnalysisView {
    let v = day_verdict(prelude, hijri, weekday_of(day), rulings);
    AnalysisView { date: datetime, status: v.status, hijri, reasons: v.reasons, traces: v.traces }
}

/// Runs the rules on a day whose Hijri date is known.
///
/// * `datetime`: The instant that the analysis is for.
/// * `day`: The day that counts; its weekday is used.
/// * `hijri`: The Hijri date of that day.
/// * `madhab`: The school whose rule on Fridays and Saturdays applies. The
///   four schools agree on it.
/// * `traces`: What the trace already holds.
/// * `answers`: What the custom rules answered for the day, in the order of
///   the rules. On a day on which fasting is forbidden they are not looked
///   at.
pub fn evaluate(
    datetime: DateTime,
    day: Date,
    hijri: HijriDate,
    madhab: Madhab,
    traces: TraceList,
    answers: Vec<Option<(FastingStatus, FastingType)>>,
) -> (r: FastingAnalysis)
    ensures
        r@ == evaluation(datetime, day@, hijri, traces@, rulings_of(answers@)),
{
    let weekday = day.weekday();
    let mut eval = Evaluation::start(traces);
    match find_haram(&hijri) {
        Some(code) => {
            eval.found(code);
        },
        None => {
            eval.found_if(hijri.month == MONTH_RAMADHAN, TraceCode::Ramadhan);
            eval.found_if(
                hijri.month == MONTH_DHUL_HIJJAH && hijri.day == DAY_ARAFAH,
                TraceCode::Arafah,
            );
            eval.found_if(
                hijri.month == MONTH_MUHARRAM && hijri.day == DAY_ASHURA,
                TraceCode::Ashura,
            );
            eval.found_if(
                hijri.month == MONTH_MUHARRAM && hijri.day == DAY_TASUA,
                TraceCode::Tasua,
            );
            eval.found_if(
                FIRST_WHITE_DAY <= hijri.day && hijri.day <= LAST_WHITE_DAY,
                TraceCode::AyyamulBidh,
            );
            eval.found_if(weekday == Weekday::Mon, TraceCode::Monday);
            eval.found_if(weekday == Weekday::Thu, TraceCode::Thursday);
            eval.found_if(
                hijri.month == MONTH_SHAWWAL && hijri.day > DAY_EID_AL_FITR,
                TraceCode::Shawwal,
            );
            if eval.status.is_mubah() {
                match madhab {
                    Madhab::Shafi | Madhab::Hanafi | Madhab::Maliki | Madhab::Hanbali => {
                        eval.found_if(weekday == Weekday::Fri, TraceCode::FridaySingledOut);
                        eval.found_if(weekday == Weekday::Sat, TraceCode::SaturdaySingledOut);
                    },
                }
            }
            let ghost base = eval@;
            let ghost rulings = rulings_of(answers@);
            let count = answers.len();
            let mut pending = answers;
            let mut i: usize = 0;
            assert(rulings.take(0) == Seq::<Ruling>::empty());
            while i < count
                invariant
                    count == rulings.len(),
                    i <= count,
                    pending@.len() == count,
                    forall|j: int|
                        i <= j < count ==> ruling_of(#[trigger] pending@[j]) == rulings[j],
                    eval@ == base.ruled_all(rulings.take(i as int)),
                decreases count - i,
            {
                let mut answer: Option<(FastingStatus, FastingType)> = None;
                std::mem::swap(&mut pending[i], &mut answer);
                eval.ruled(answer);
                proof {
                    let next = rulings.take(i + 1);
                    assert(next.drop_last() == rulings.take(i as int));
                    assert(next.last() == rulings[i as int]);
                }
                i = i + 1;
            }
            assert(rulings.take(count as int) == rulings);
        },
    }
    FastingAnalysis::with_traces(
        datetime,
        eval.status,
        eval.reasons,
        (hijri.year, hijri.month, hijri.day),
        eval.traces,
    )
}

/// What the custom rules of the context say of the day that an instant
/// counts towards; nothing where the search for that day ends in the error.
pub open spec fn rulings_for(
    context: ContextView,
    datetime: DateTime,
    maghrib: Option<DateTime>,
) -> Seq<Ruling> {
    match resolution(context, datetime, maghrib) {
        Resolution::Day { day, hijri, prelude } => context.rulings(day, hijri),
        Resolution::OutOfRange(_) => Seq::<Ruling>::empty(),
    }
}

/// How the analysis of an instant ends with a context: the outcome for
/// what the custom rules of the context say.
pub open spec fn analyzed(
    context: ContextView,
    datetime: DateTime,
    maghrib: Option<DateTime>,
) -> Outcome {
    analysis_outcome(context, datetime, maghrib, rulings_for(context, datetime, maghrib))
}

/// Analyzes fasting status for a specific moment in time.
///
/// * `datetime`: The checking time in UTC.
/// * `context`: The rule configuration.
/// * `maghrib`: The sunset of the day of `datetime` at the place of the
///   observer, where the day is to change at sunset.
///
/// The answer is [`analyzed`]. Each custom rule of the context is asked
/// once about the day that counts, in the order of the rules, unless
/// fasting is forbidden on that day: then none is asked.
pub fn analyze(datetime: DateTime, context: &RuleContext, maghrib: Option<DateTime>) -> (r: Result<
    FastingAnalysis,
    ShaumError,
>)
    ensures
        match analyzed(context@, datetime, maghrib) {
            Outcome::Analysis(a) => r matches Ok(x) && x@ == a,
            Outcome::OutOfRange(day) => r matches Err(e) && e.is_out_of_range_for(day),
        },
        r matches Ok(x) ==> x@.hijri.is_month_and_day(),
{
    match resolve(datetime, context, maghrib) {
        Err(e) => Err(e),
        Ok(found) => {
            let answers = match find_haram(&found.hijri) {
                Some(_) => Vec::new(),
                None => consult(context, found.day, &found.hijri),
            };
            Ok(
                evaluate(
                    datetime,
                    found.day,
                    found.hijri,
                    context.madhab,
                    found.traces,
                    answers,
                ),
            )
        },
    }
}

/// How the analysis of the day with number `day` ends, taken at its noon.
pub open spec fn day_outcome(context: ContextView, day: int) -> Outcome {
    analyzed(context, crate::civil::noon_of(day), None)
}

/// Whether the context gives an analysis for the day with number `day`: it
/// is lenient, or the day shifted by its adjustment lies in the supported
/// years.
pub open spec fn is_answered(context: ContextView, day: int) -> bool {
    !context.strict || HIJRI_FIRST_DAY <= adjusted_day(day, context.adjustment)
        <= HIJRI_LAST_DAY
}

/// The analysis of the day with number `day`, taken at its noon, where the
/// context gives one.
pub open spec fn day_judgment(context: ContextView, day: int) -> AnalysisView {
    day_outcome(context, day)->Analysis_0
}

/// The analysis of the day with number `day`, taken at its noon, where the
/// custom rules say `rulings` and the context gives an analysis.
pub open spec fn day_analysis(
    context: ContextView,
    day: int,
    rulings: Seq<Ruling>,
) -> AnalysisView {
    analysis_outcome(context, crate::civil::noon_of(day), None, rulings)->Analysis_0
}

/// A context gives an analysis for a day exactly where the analysis of the
/// day does not end in the error.
pub proof fn lemma_is_answered(context: ContextView, day: int)
    requires
        is_representable(day),
    ensures
        is_answered(context, day) <==> day_outcome(context, day) is Analysis,
{
    crate::civil::lemma_noon_of(day);
}

/// Whether the context gives an analysis for the day: it is lenient, or the
/// day shifted by its adjustment lies in the supported years.
pub fn can_check(g_date: Date, context: &RuleContext) -> (r: bool)
    ensures
        r == is_answered(context@, g_date@),
{
    if !context.strict {
        return true;
    }
    let shifted: i64 = g_date.num_days_from_ce() as i64 + clamped(context.adjustment);
    HIJRI_FIRST_DAY as i64 <= shifted && shifted <= HIJRI_LAST_DAY as i64
}

/// Analyzes a day, taken at noon UTC, with a context that gives an analysis
/// for it. A strict context gives none for a day outside the supported
/// years: [`analyze`] answers such a day with the error.
pub fn check(g_date: Date, context: &RuleContext) -> (r: FastingAnalysis)
    requires
        is_answered(context@, g_date@),
    ensures
        r@ == day_judgment(context@, g_date@),
        r@.hijri.is_month_and_day(),
{
    proof {
        use_type_invariant(&g_date);
        lemma_is_answered(context@, g_date@);
    }
    analyze(g_date.noon(), context, None).unwrap()
}

/// Analyzes date with default context. Infallible: the default context is
/// lenient.
pub fn analyze_date(date: Date) -> (r: FastingAnalysis)
    ensures
        r@ == day_judgment(ContextView::plain(), date@),
{
    let context = RuleContext::new();
    check(date, &context)
}

/// Whether none of the reasons forbids a fast.
pub open spec fn free_of_haram_names(reasons: Seq<Seq<char>>) -> bool {
    forall|j: int| 0 <= j < reasons.len() ==> !is_haram_name(#[trigger] reasons[j])
}

/// Whether no ruling uses the name of a reason that forbids a fast: those
/// three names are the engine's own.
pub open spec fn avoid_haram_names(rulings: Seq<Ruling>) -> bool {
    forall|i: int|
        0 <= i < rulings.len() ==> (#[trigger] rulings[i] matches Some(p) ==> !is_haram_name(p.1))
}

/// Whether no ruling forbids a fast.
pub open spec fn none_forbids(rulings: Seq<Ruling>) -> bool {
    forall|i: int|
        0 <= i < rulings.len() ==> (#[trigger] rulings[i] matches Some(p) ==> p.0
            != FastingStatus::Haram)
}

/// Among the findings of the engine, the reasons that forbid a fast are
/// those with the status Haram.
pub proof fn lemma_engine_names(code: TraceCode)
    ensures
        is_haram_name(code_reason(code)) <==> code_status(code) == FastingStatus::Haram,
{
    reveal_strlit("EidAlFitr");
    reveal_strlit("EidAlAdha");
    reveal_strlit("Tashriq");
    reveal_strlit("FridayExclusive");
    reveal_strlit("SaturdayExclusive");
    reveal_strlit("FridaySingledOut");
    reveal_strlit("SaturdaySingledOut");
    reveal_strlit("Ramadhan");
    reveal_strlit("Arafah");
    reveal_strlit("Tasua");
    reveal_strlit("Ashura");
    reveal_strlit("AyyamulBidh");
    reveal_strlit("Monday");
    reveal_strlit("Thursday");
    reveal_strlit("Shawwal");
    reveal_strlit("Daud");
    reveal_strlit("Custom");
    reveal_strlit("Debug");
    let name = code_reason(code);
    if code_status(code) != FastingStatus::Haram {
        assert(name.len() != 9 || name[0] != 'E');
        assert(name.len() != 7 || name[0] != 'T');
        assert("EidAlFitr"@.len() == 9 && "EidAlFitr"@[0] == 'E');
        assert("EidAlAdha"@.len() == 9 && "EidAlAdha"@[0] == 'E');
        assert("Tashriq"@.len() == 7 && "Tashriq"@[0] == 'T');
    }
}

/// A finding that does not forbid a fast adds no reason that does.
proof fn lemma_found_if_keeps_free(v: Verdict, applies: bool, code: TraceCode)
    requires
        free_of_haram_names(v.reasons),
        code_status(code) != FastingStatus::Haram,
    ensures
        free_of_haram_names(v.found_if(applies, code).reasons),
{
    lemma_engine_names(code);
}

/// Rulings that avoid the three names add no reason that forbids a fast.
proof fn lemma_ruled_all_keeps_free(v: Verdict, rulings: Seq<Ruling>)
    requires
        free_of_haram_names(v.reasons),
        avoid_haram_names(rulings),
    ensures
        free_of_haram_names(v.ruled_all(rulings).reasons),
    decreases rulings.len(),
{
    if rulings.len() > 0 {
        let earlier = rulings.drop_last();
        assert forall|i: int| 0 <= i < earlier.len() implies (#[trigger] earlier[i] matches Some(
            p,
        ) ==> !is_haram_name(p.1)) by {
            assert(earlier[i] == rulings[i]);
        }
        lemma_ruled_all_keeps_free(v, earlier);
        let last = rulings[rulings.len() - 1];
        assert(last matches Some(p) ==> !is_haram_name(p.1));
    }
}

/// The custom rules never lower the status, and never raise it above the
/// highest of the status before them and their own.
pub proof fn lemma_ruled_all_status(v: Verdict, rulings: Seq<Ruling>, bound: int)
    requires
        v.status.spec_rank() <= bound,
        forall|i: int|
            0 <= i < rulings.len() ==> (#[trigger] rulings[i] matches Some(p) ==> p.0.spec_rank()
                <= bound),
    ensures
        v.status.spec_rank() <= v.ruled_all(rulings).status.spec_rank() <= bound,
    decreases rulings.len(),
{
    if rulings.len() > 0 {
        let earlier = rulings.drop_last();
        assert forall|i: int| 0 <= i < earlier.len() implies (#[trigger] earlier[i] matches Some(
            p,
        ) ==> p.0.spec_rank() <= bound) by {
            assert(earlier[i] == rulings[i]);
        }
        lemma_ruled_all_status(v, earlier, bound);
        let last = rulings[rulings.len() - 1];
        assert(last matches Some(p) ==> p.0.spec_rank() <= bound);
    }
}

/// On a day on which fasting is forbidden the evaluation ends with the
/// first finding: the status is Haram, that finding is the one reason, and
/// its entry is the last of the trace. Neither the weekday nor a custom rule
/// has a say.
pub proof fn lemma_haram_ends_evaluation(
    prelude: Seq<TraceView>,
    hijri: HijriDate,
    weekday: Weekday,
    rulings: Seq<Ruling>,
)
    requires
        haram_code(hijri) is Some,
    ensures
        ({
            let v = day_verdict(prelude, hijri, weekday, rulings);
            let code = haram_code(hijri)->0;
            &&& v.status == FastingStatus::Haram
            &&& v.reasons == seq![code_reason(code)]
            &&& v.traces == prelude.push(code_trace(code))
            &&& is_haram_name(code_reason(code))
        }),
{
    lemma_engine_names(haram_code(hijri)->0);
}

/// A reason that forbids a fast comes with the status Haram and stands
/// alone, whatever the day, provided that no custom rule uses one of the
/// three names for itself.
pub proof fn lemma_haram_reason_means_haram(
    prelude: Seq<TraceView>,
    hijri: HijriDate,
    weekday: Weekday,
    rulings: Seq<Ruling>,
)
    requires
        avoid_haram_names(rulings),
    ensures
        ({
            let v = day_verdict(prelude, hijri, weekday, rulings);
            !free_of_haram_names(v.reasons) ==> v.status == FastingStatus::Haram
                && v.reasons.len() == 1
        }),
{
    if haram_code(hijri) is Some {
        lemma_haram_ends_evaluation(prelude, hijri, weekday, rulings);
    } else {
        let v0 = Verdict::start(prelude);
        let v1 = v0.found_if(hijri.month == 9, TraceCode::Ramadhan);
        let v2 = v1.found_if(hijri.month == 12 && hijri.day == 9, TraceCode::Arafah);
        let v3 = v2.found_if(hijri.month == 1 && hijri.day == 10, TraceCode::Ashura);
        let v4 = v3.found_if(hijri.month == 1 && hijri.day == 9, TraceCode::Tasua);
        let v5 = v4.found_if(13 <= hijri.day <= 15, TraceCode::AyyamulBidh);
        let v6 = v5.found_if(weekday == Weekday::Mon, TraceCode::Monday);
        let v7 = v6.found_if(weekday == Weekday::Thu, TraceCode::Thursday);
        let v8 = v7.found_if(hijri.month == 10 && hijri.day > 1, TraceCode::Shawwal);
        lemma_found_if_keeps_free(v0, hijri.month == 9, TraceCode::Ramadhan);
        lemma_found_if_keeps_free(v1, hijri.month == 12 && hijri.day == 9, TraceCode::Arafah);
        lemma_found_if_keeps_free(v2, hijri.month == 1 && hijri.day == 10, TraceCode::Ashura);
        lemma_found_if_keeps_free(v3, hijri.month == 1 && hijri.day == 9, TraceCode::Tasua);
        lemma_found_if_keeps_free(v4, 13 <= hijri.day <= 15, TraceCode::AyyamulBidh);
        lemma_found_if_keeps_free(v5, weekday == Weekday::Mon, TraceCode::Monday);
        lemma_found_if_keeps_free(v6, weekday == Weekday::Thu, TraceCode::Thursday);
        lemma_found_if_keeps_free(v7, hijri.month == 10 && hijri.day > 1, TraceCode::Shawwal);
        assert(v8 == merits(v0, hijri, weekday));
        let v9 = v8.found_if(weekday == Weekday::Fri, TraceCode::FridaySingledOut);
        lemma_found_if_keeps_free(v8, weekday == Weekday::Fri, TraceCode::FridaySingledOut);
        lemma_found_if_keeps_free(v9, weekday == Weekday::Sat, TraceCode::SaturdaySingledOut);
        lemma_ruled_all_keeps_free(discouraged(v8, weekday), rulings);
    }
}

/// A day of Ramadhan is Wajib, whatever else applies to it, provided that
/// no custom rule forbids the fast.
pub proof fn lemma_ramadhan_is_wajib(
    prelude: Seq<TraceView>,
    hijri: HijriDate,
    weekday: Weekday,
    rulings: Seq<Ruling>,
)
    requires
        hijri.month == MONTH_RAMADHAN,
        none_forbids(rulings),
    ensures
        day_verdict(prelude, hijri, weekday, rulings).status == FastingStatus::Wajib,
        day_verdict(prelude, hijri, weekday, rulings).reasons.contains("Ramadhan"@),
{
    let v = discouraged(merits(Verdict::start(prelude), hijri, weekday), weekday);
    assert(v.status == FastingStatus::Wajib);
    assert(v.reasons[0] == "Ramadhan"@);
    assert forall|i: int| 0 <= i < rulings.len() implies (#[trigger] rulings[i] matches Some(p)
        ==> p.0.spec_rank() <= 4) by {
        assert(rulings[i] matches Some(p) ==> p.0 != FastingStatus::Haram);
    }
    lemma_ruled_all_status(v, rulings, 4);
    lemma_ruled_all_keeps_reasons(v, rulings);
    assert(v.ruled_all(rulings).reasons[0] == "Ramadhan"@);
}

/// The custom rules add to the reasons and the trace, and take nothing
/// away.
pub proof fn lemma_ruled_all_keeps_reasons(v: Verdict, rulings: Seq<Ruling>)
    ensures
        v.reasons.is_prefix_of(v.ruled_all(rulings).reasons),
        v.traces.is_prefix_of(v.ruled_all(rulings).traces),
    decreases rulings.len(),
{
    if rulings.len() > 0 {
        lemma_ruled_all_keeps_reasons(v, rulings.drop_last());
    }
}

/// A day that is neither forbidden nor marked by any occasion is Makruh on
/// a Friday or a Saturday; a day with an occasion never is, whatever its
/// weekday.
pub proof fn lemma_makruh_only_without_occasion(
    prelude: Seq<TraceView>,
    hijri: HijriDate,
    weekday: Weekday,
)
    ensures
        ({
            let v = day_verdict(prelude, hijri, weekday, Seq::<Ruling>::empty());
            v.status == FastingStatus::Makruh <==> (haram_code(hijri) is None && merits(
                Verdict::start(prelude),
                hijri,
                weekday,
            ).reasons.len() == 0 && (weekday == Weekday::Fri || weekday == Weekday::Sat))
        }),
{
    let v0 = Verdict::start(prelude);
    let v1 = v0.found_if(hijri.month == 9, TraceCode::Ramadhan);
    let v2 = v1.found_if(hijri.month == 12 && hijri.day == 9, TraceCode::Arafah);
    let v3 = v2.found_if(hijri.month == 1 && hijri.day == 10, TraceCode::Ashura);
    let v4 = v3.found_if(hijri.month == 1 && hijri.day == 9, TraceCode::Tasua);
    let v5 = v4.found_if(13 <= hijri.day <= 15, TraceCode::AyyamulBidh);
    let v6 = v5.found_if(weekday == Weekday::Mon, TraceCode::Monday);
    let v7 = v6.found_if(weekday == Weekday::Thu, TraceCode::Thursday);
    let v8 = v7.found_if(hijri.month == 10 && hijri.day > 1, TraceCode::Shawwal);
    assert(v8 == merits(v0, hijri, weekday));
    assert(v8.reasons.len() == 0 <==> v8.status == FastingStatus::Mubah);
}

/// In every analysis, a reason that forbids a fast (EidAlFitr, EidAlAdha,
/// Tashriq) comes with the status Haram and is the only reason, provided
/// that no custom rule uses one of the three names for itself.
pub proof fn lemma_analysis_haram_reason(
    context: ContextView,
    datetime: DateTime,
    maghrib: Option<DateTime>,
    rulings: Seq<Ruling>,
)
    requires
        avoid_haram_names(rulings),
    ensures
        analysis_outcome(context, datetime, maghrib, rulings) matches Outcome::Analysis(a) ==> (
        !free_of_haram_names(a.reasons) ==> a.status == FastingStatus::Haram && a.reasons.len()
            == 1),
{
    if let Resolution::Day { day, hijri, prelude } = resolution(context, datetime, maghrib) {
        lemma_haram_reason_means_haram(prelude, hijri, weekday_of(day), rulings);
    }
}

/// In every analysis, a day whose Hijri month is Ramadhan has the status
/// Wajib, provided that no custom rule forbids the fast.
pub proof fn lemma_analysis_ramadhan(
    context: ContextView,
    datetime: DateTime,
    maghrib: Option<DateTime>,
    rulings: Seq<Ruling>,
)
    requires
        none_forbids(rulings),
    ensures
        analysis_outcome(context, datetime, maghrib, rulings) matches Outcome::Analysis(a) ==> (
        a.hijri.month == MONTH_RAMADHAN ==> a.status == FastingStatus::Wajib),
{
    if let Resolution::Day { day, hijri, prelude } = resolution(context, datetime, maghrib) {
        if hijri.month == MONTH_RAMADHAN {
            lemma_ramadhan_is_wajib(prelude, hijri, weekday_of(day), rulings);
        }
    }
}

/// Whatever the custom rules say, the status of a day is Haram exactly if
/// the rules of the engine forbid the fast or one of the custom rules does.
pub proof fn lemma_haram_status(
    prelude: Seq<TraceView>,
    hijri: HijriDate,
    weekday: Weekday,
    rulings: Seq<Ruling>,
)
    ensures
        day_verdict(prelude, hijri, weekday, rulings).status == FastingStatus::Haram <==> (
        haram_code(hijri) is Some || !none_forbids(rulings)),
{
    if haram_code(hijri) is Some {
        lemma_haram_ends_evaluation(prelude, hijri, weekday, rulings);
    } else {
        let v = discouraged(merits(Verdict::start(prelude), hijri, weekday), weekday);
        assert(v.status != FastingStatus::Haram);
        lemma_ruled_all_forbids(v, rulings);
    }
}

/// After the custom rules the status is Haram exactly if it was before or
/// one of them forbids the fast.
proof fn lemma_ruled_all_forbids(v: Verdict, rulings: Seq<Ruling>)
    ensures
        v.ruled_all(rulings).status == FastingStatus::Haram <==> (v.status == FastingStatus::Haram
            || !none_forbids(rulings)),
    decreases rulings.len(),
{
    if rulings.len() > 0 {
        let earlier = rulings.drop_last();
        lemma_ruled_all_forbids(v, earlier);
        let last = rulings[rulings.len() - 1];
        if none_forbids(rulings) {
            assert forall|i: int| 0 <= i < earlier.len() implies (#[trigger] earlier[i] matches Some(
                p,
            ) ==> p.0 != FastingStatus::Haram) by {
                assert(earlier[i] == rulings[i]);
            }
            assert(last matches Some(p) ==> p.0 != FastingStatus::Haram);
        } else {
            let i = choose|i: int|
                0 <= i < rulings.len() && !(#[trigger] rulings[i] matches Some(p) ==> p.0
                    != FastingStatus::Haram);
            if i < earlier.len() {
                assert(earlier[i] == rulings[i]);
            }
        }
    }
}

/// A day on which the rules of the engine forbid the fast is Haram
/// whatever the custom rules say.
pub proof fn lemma_forbidden_by_engine(context: ContextView, day: int, rulings: Seq<Ruling>)
    ensures
        day_analysis(context, day, Seq::<Ruling>::empty()).status == FastingStatus::Haram
            ==> day_analysis(context, day, rulings).status == FastingStatus::Haram,
{
    if let Resolution::Day { day, hijri, prelude } = resolution(
        context,
        crate::civil::noon_of(day),
        None,
    ) {
        lemma_haram_status(prelude, hijri, weekday_of(day), rulings);
        lemma_haram_status(prelude, hijri, weekday_of(day), Seq::<Ruling>::empty());
    }
}

/// The status after the custom rules is the highest among the status
/// before them and the statuses that they give.
pub proof fn lemma_ruled_all_takes_the_highest(v: Verdict, rulings: Seq<Ruling>)
    ensures
        v.status.spec_rank() <= v.ruled_all(rulings).status.spec_rank(),
        forall|i: int|
            0 <= i < rulings.len() ==> (#[trigger] rulings[i] matches Some(p) ==> p.0.spec_rank()
                <= v.ruled_all(rulings).status.spec_rank()),
        v.ruled_all(rulings).status == v.status || rulings.contains(
            Some((v.ruled_all(rulings).status, witness_reason(v, rulings))),
        ),
    decreases rulings.len(),
{
    if rulings.len() > 0 {
        let earlier = rulings.drop_last();
        let last = rulings[rulings.len() - 1];
        lemma_ruled_all_takes_the_highest(v, earlier);
        let before = v.ruled_all(earlier);
        let after = v.ruled_all(rulings);
        assert forall|i: int| 0 <= i < rulings.len() implies (#[trigger] rulings[i] matches Some(
            p,
        ) ==> p.0.spec_rank() <= after.status.spec_rank()) by {
            if i < earlier.len() {
                assert(earlier[i] == rulings[i]);
            }
        }
        if after.status != v.status {
            if last matches Some(p) && p.0.spec_rank() > before.status.spec_rank() {
                assert(rulings[rulings.len() - 1] == Some(
                    (after.status, witness_reason(v, rulings)),
                ));
            } else {
                let found = Some((before.status, witness_reason(v, earlier)));
                let i = choose|i: int| 0 <= i < earlier.len() && earlier[i] == found;
                assert(rulings[i] == found);
            }
        }
    }
}

/// The reason of a ruling that gave the status that the custom rules end
/// with, where one of them did.
pub open spec fn witness_reason(v: Verdict, rulings: Seq<Ruling>) -> Seq<char>
    decreases rulings.len(),
{
    if rulings.len() == 0 {
        Seq::<char>::empty()
    } else {
        let before = v.ruled_all(rulings.drop_last());
        match rulings.last() {
            Some((status, reason)) => if status.spec_rank() > before.status.spec_rank() {
                reason
            } else {
                witness_reason(v, rulings.drop_last())
            },
            None => witness_reason(v, rulings.drop_last()),
        }
    }
}

/// The order in which the custom rules stand does not change the status:
/// the same rulings in another order end with the same status.
pub proof fn lemma_order_of_rulings(v: Verdict, first: Seq<Ruling>, second: Seq<Ruling>)
    requires
        first.to_multiset() == second.to_multiset(),
    ensures
        v.ruled_all(first).status == v.ruled_all(second).status,
{
    lemma_ruled_all_takes_the_highest(v, first);
    lemma_ruled_all_takes_the_highest(v, second);
    let a = v.ruled_all(first).status;
    let b = v.ruled_all(second).status;
    assert(a.spec_rank() <= b.spec_rank()) by {
        if a != v.status {
            let given = Some((a, witness_reason(v, first)));
            vstd::seq_lib::to_multiset_contains(first, given);
            vstd::seq_lib::to_multiset_contains(second, given);
            let j = choose|j: int| 0 <= j < second.len() && second[j] == given;
            assert(second[j] matches Some(p) ==> p.0.spec_rank() <= b.spec_rank());
        }
    }
    assert(b.spec_rank() <= a.spec_rank()) by {
        if b != v.status {
            let given = Some((b, witness_reason(v, second)));
            vstd::seq_lib::to_multiset_contains(first, given);
            vstd::seq_lib::to_multiset_contains(second, given);
            let j = choose|j: int| 0 <= j < first.len() && first[j] == given;
            assert(first[j] matches Some(p) ==> p.0.spec_rank() <= a.spec_rank());
        }
    }
}

} // verus!
