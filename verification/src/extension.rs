//! Fasting analysis as methods of a [`Date`].

use crate::calendar::{ShaumError, HIJRI_FIRST_DAY, HIJRI_LAST_DAY};
use crate::civil::{lemma_noon_of, Date};
use crate::context::{ContextView, RuleContext};
use crate::rules::{analyze, check, day_judgment, day_outcome, is_answered, Outcome};
use crate::types::{FastingAnalysis, FastingStatus};
use vstd::prelude::*;

verus! {

/// Whether the day with number `day` lies in the years for which the Hijri
/// conversion is defined.
pub open spec fn is_supported_day(day: int) -> bool {
    HIJRI_FIRST_DAY <= day <= HIJRI_LAST_DAY
}

/// The default context made strict: a day outside the supported years is an
/// error.
pub open spec fn strict_default() -> ContextView {
    ContextView { strict: true, ..ContextView::plain() }
}

/// The status of the day with number `day`, with the default context.
pub open spec fn status_of_day(day: int) -> FastingStatus {
    day_judgment(ContextView::plain(), day).status
}

/// Whether the status is the kind that a search looks for: a recommended
/// fast, or else an obligatory one.
pub open spec fn is_wanted(status: FastingStatus, sunnah: bool) -> bool {
    if sunnah {
        status == FastingStatus::Sunnah || status == FastingStatus::SunnahMuakkadah
    } else {
        status == FastingStatus::Wajib
    }
}

/// The first of the `steps` days after `day` whose status is the wanted
/// kind. There is none if the supported years end before such a day comes.
pub open spec fn next_wanted(day: int, steps: nat, sunnah: bool) -> Option<int>
    decreases steps,
{
    if steps == 0 || !is_supported_day(day + 1) {
        None
    } else if is_wanted(status_of_day(day + 1), sunnah) {
        Some(day + 1)
    } else {
        next_wanted(day + 1, (steps - 1) as nat, sunnah)
    }
}

/// How many days ahead a search looks.
pub const SEARCH_DAYS: u32 = 400;

/// On a supported day the strict and the lenient default context give the
/// same analysis.
pub proof fn lemma_supported_day(day: int)
    requires
        is_supported_day(day),
    ensures
        day_outcome(strict_default(), day) == Outcome::Analysis(
            day_judgment(ContextView::plain(), day),
        ),
        day_outcome(ContextView::plain(), day) == Outcome::Analysis(
            day_judgment(ContextView::plain(), day),
        ),
{
    lemma_noon_of(day);
    let hijri = crate::calendar::hijri_of_day(day);
    assert(strict_default().rulings(day, hijri) =~= ContextView::plain().rulings(day, hijri));
}

/// The first of the 400 days after `start` whose status is the wanted kind.
fn search_from(start: Date, sunnah: bool) -> (r: Option<Date>)
    ensures
        match next_wanted(start@, SEARCH_DAYS as nat, sunnah) {
            Some(day) => r matches Some(d) && d@ == day,
            None => r is None,
        },
{
    let mut d = start;
    let mut left: u32 = SEARCH_DAYS;
    while left > 0
        invariant
            next_wanted(d@, left as nat, sunnah) == next_wanted(start@, SEARCH_DAYS as nat, sunnah),
        decreases left,
    {
        d = match d.succ_opt() {
            Some(next) => next,
            None => {
                return None;
            },
        };
        match d.try_status() {
            Ok(s) => {
                proof {
                    lemma_supported_day(d@);
                }
                let found = if sunnah {
                    s.is_sunnah()
                } else {
                    s.is_wajib()
                };
                if found {
                    return Some(d);
                }
            },
            Err(_) => {
                return None;
            },
        }
        left = left - 1;
    }
    None
}

/// Extends [`Date`] with fasting analysis methods.
pub trait ShaumDateExt: Sized {
    /// The day number of the date.
    spec fn day_number(&self) -> int;

    /// Returns fasting status (default context), for a day of the supported
    /// years.
    fn status(&self) -> (r: FastingStatus)
        requires
            is_supported_day(self.day_number()),
        ensures
            r == status_of_day(self.day_number()),
    ;

    /// Returns fasting status (default context). Safe version: a day outside
    /// the supported years is an error.
    fn try_status(&self) -> (r: Result<FastingStatus, ShaumError>)
        ensures
            is_supported_day(self.day_number()) ==> r == Ok::<FastingStatus, ShaumError>(
                status_of_day(self.day_number()),
            ),
            !is_supported_day(self.day_number()) ==> (r matches Err(e) && e.is_out_of_range_for(
                self.day_number(),
            )),
    ;

    /// The same as [`ShaumDateExt::status`].
    fn fasting_status(&self) -> (r: FastingStatus)
        requires
            is_supported_day(self.day_number()),
        ensures
            r == status_of_day(self.day_number()),
    ;

    /// Returns full analysis (default context), for a day of the supported
    /// years.
    fn fasting_analysis(&self) -> (r: FastingAnalysis)
        requires
            is_supported_day(self.day_number()),
        ensures
            r@ == day_judgment(ContextView::plain(), self.day_number()),
    ;

    /// Returns full analysis (default context). Safe version: a day outside
    /// the supported years is an error.
    fn try_fasting_analysis(&self) -> (r: Result<FastingAnalysis, ShaumError>)
        ensures
            is_supported_day(self.day_number()) ==> (r matches Ok(a) && a@ == day_judgment(
                ContextView::plain(),
                self.day_number(),
            )),
            !is_supported_day(self.day_number()) ==> (r matches Err(e) && e.is_out_of_range_for(
                self.day_number(),
            )),
    ;

    /// Returns full analysis with custom context, where the context gives
    /// one for the day: what [`check`] gives.
    fn analyze_with(&self, ctx: &RuleContext) -> (r: FastingAnalysis)
        requires
            is_answered(ctx@, self.day_number()),
        ensures
            r@ == day_judgment(ctx@, self.day_number()),
    ;

    /// Returns true if Wajib.
    fn is_wajib(&self) -> (r: bool)
        requires
            is_supported_day(self.day_number()),
        ensures
            r == (status_of_day(self.day_number()) == FastingStatus::Wajib),
    ;

    /// Returns true if Haram.
    fn is_haram(&self) -> (r: bool)
        requires
            is_supported_day(self.day_number()),
        ensures
            r == (status_of_day(self.day_number()) == FastingStatus::Haram),
    ;

    /// Returns true if Sunnah.
    fn is_sunnah(&self) -> (r: bool)
        requires
            is_supported_day(self.day_number()),
        ensures
            r == is_wanted(status_of_day(self.day_number()), true),
    ;

    /// Returns true if Makruh.
    fn is_makruh(&self) -> (r: bool)
        requires
            is_supported_day(self.day_number()),
        ensures
            r == (status_of_day(self.day_number()) == FastingStatus::Makruh),
    ;

    /// Returns true if Mubah.
    fn is_mubah(&self) -> (r: bool)
        requires
            is_supported_day(self.day_number()),
        ensures
            r == (status_of_day(self.day_number()) == FastingStatus::Mubah),
    ;

    /// Finds the next Sunnah fasting day (up to 400 days ahead). The search
    /// ends without one where the supported years end.
    fn next_sunnah(&self) -> (r: Option<Self>)
        ensures
            match next_wanted(self.day_number(), SEARCH_DAYS as nat, true) {
                Some(day) => r matches Some(d) && d.day_number() == day,
                None => r is None,
            },
    ;

    /// Finds the next Wajib fasting day (up to 400 days ahead). The search
    /// ends without one where the supported years end.
    fn next_wajib(&self) -> (r: Option<Self>)
        ensures
            match next_wanted(self.day_number(), SEARCH_DAYS as nat, false) {
                Some(day) => r matches Some(d) && d.day_number() == day,
                None => r is None,
            },
    ;
}

impl ShaumDateExt for Date {
    open spec fn day_number(&self) -> int {
        self@
    }

    fn status(&self) -> (r: FastingStatus) {
        check(*self, &RuleContext::new()).primary_status
    }

    fn try_status(&self) -> (r: Result<FastingStatus, ShaumError>) {
        match self.try_fasting_analysis() {
            Ok(a) => Ok(a.primary_status),
            Err(e) => Err(e),
        }
    }

    fn fasting_status(&self) -> (r: FastingStatus) {
        self.status()
    }

    fn fasting_analysis(&self) -> (r: FastingAnalysis) {
        check(*self, &RuleContext::new())
    }

    fn try_fasting_analysis(&self) -> (r: Result<FastingAnalysis, ShaumError>) {
        let dt = self.noon();
        let ctx = RuleContext::new().strict(true);
        proof {
            if is_supported_day(self@) {
                lemma_supported_day(self@);
            }
            assert(ctx@ == strict_default());
        }
        analyze(dt, &ctx, None)
    }

    fn analyze_with(&self, ctx: &RuleContext) -> (r: FastingAnalysis) {
        check(*self, ctx)
    }

    fn is_wajib(&self) -> (r: bool) {
        self.status().is_wajib()
    }

    fn is_haram(&self) -> (r: bool) {
        self.status().is_haram()
    }

    fn is_sunnah(&self) -> (r: bool) {
        self.status().is_sunnah()
    }

    fn is_makruh(&self) -> (r: bool) {
        self.status().is_makruh()
    }

    fn is_mubah(&self) -> (r: bool) {
        self.status().is_mubah()
    }

    fn next_sunnah(&self) -> (r: Option<Date>) {
        search_from(*self, true)
    }

    fn next_wajib(&self) -> (r: Option<Date>) {
        search_from(*self, false)
    }
}

} // verus!
