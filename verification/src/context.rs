//! The configuration of the rule engine, and the builder that validates it.

use crate::calendar::{clamp_adjustment, clamped, HijriDate, ShaumError};
use crate::civil::Date;
use crate::location::GeoCoordinate;
use crate::rules::{ruling_of, CustomFastingRule, Ruling};
use crate::text::{decimal_string, signed_decimal};
use crate::types::{DaudStrategy, Madhab};
use vstd::prelude::*;
use vstd::string::StringExecFns;

verus! {

/// Moon sighting adjustment provider: says by how many days the Hijri
/// calendar is to be shifted for a date, seen from a place if one is given.
pub trait MoonProvider {
    fn get_adjustment(&self, date: Date, coords: Option<GeoCoordinate>) -> (r: Result<
        i64,
        ShaumError,
    >)
    ;
}

/// Fixed day offset for all dates.
#[derive(Debug, Clone, Copy, Default)]
pub struct FixedAdjustment(pub i64);

impl FixedAdjustment {
    /// The offset, kept within thirty days either way.
    pub fn new(offset: i64) -> (r: FixedAdjustment)
        ensures
            r.0 == clamp_adjustment(offset as int),
    {
        FixedAdjustment(clamped(offset))
    }
}

impl MoonProvider for FixedAdjustment {
    /// The offset, whatever the date and the place.
    fn get_adjustment(&self, date: Date, coords: Option<GeoCoordinate>) -> (r: Result<
        i64,
        ShaumError,
    >)
        ensures
            r == Ok::<i64, ShaumError>(self.0),
    {
        Ok(self.0)
    }
}

/// No adjustment (use astronomical calculation).
#[derive(Debug, Clone, Copy, Default)]
pub struct NoAdjustment;

impl MoonProvider for NoAdjustment {
    /// No offset, whatever the date and the place.
    fn get_adjustment(&self, date: Date, coords: Option<GeoCoordinate>) -> (r: Result<
        i64,
        ShaumError,
    >)
        ensures
            r == Ok::<i64, ShaumError>(0i64),
    {
        Ok(0)
    }
}

/// Rule engine configuration.
pub struct RuleContext {
    /// Hijri day offset. Clamped to [-30, 30].
    pub adjustment: i64,
    pub madhab: Madhab,
    pub daud_strategy: DaudStrategy,
    /// Whether a day outside the supported years is an error; if not, the
    /// nearest supported day stands in for it.
    pub strict: bool,
    pub custom_rules: Vec<Box<dyn CustomFastingRule>>,
}

/// What a context holds.
pub struct ContextView {
    pub adjustment: int,
    pub madhab: Madhab,
    pub daud_strategy: DaudStrategy,
    pub strict: bool,
    pub custom_rules: Seq<Box<dyn CustomFastingRule>>,
}

impl ContextView {
    /// The context that [`RuleContext::new`] gives: no adjustment, Shafi,
    /// Skip, lenient, no custom rules.
    pub open spec fn plain() -> ContextView {
        ContextView {
            adjustment: 0,
            madhab: Madhab::Shafi,
            daud_strategy: DaudStrategy::Skip,
            strict: false,
            custom_rules: Seq::<Box<dyn CustomFastingRule>>::empty(),
        }
    }

    /// What the custom rules say of the day with number `day` and Hijri date
    /// `hijri`, in the order of the rules.
    pub open spec fn rulings(self, day: int, hijri: HijriDate) -> Seq<Ruling> {
        Seq::new(
            self.custom_rules.len(),
            |i: int|
                ruling_of(
                    self.custom_rules[i].ruling(Date::of_day(day), hijri.year, hijri.month, hijri.day),
                ),
        )
    }

    /// The context after a moon provider has been asked: its answer, kept
    /// within thirty days either way, is the adjustment; where it failed,
    /// nothing changes.
    pub open spec fn after_provider(self, answer: Result<i64, ShaumError>) -> ContextView {
        match answer {
            Ok(adjustment) => ContextView {
                adjustment: clamp_adjustment(adjustment as int),
                ..self
            },
            Err(_) => self,
        }
    }
}

impl View for RuleContext {
    type V = ContextView;

    open spec fn view(&self) -> ContextView {
        ContextView {
            adjustment: self.adjustment as int,
            madhab: self.madhab,
            daud_strategy: self.daud_strategy,
            strict: self.strict,
            custom_rules: self.custom_rules@,
        }
    }
}

impl Clone for RuleContext {
    /// A copy of the settings. The custom rules are not copied: the copy has
    /// none.
    fn clone(&self) -> (r: RuleContext)
        ensures
            r@ == (ContextView {
                custom_rules: Seq::<Box<dyn CustomFastingRule>>::empty(),
                ..self@
            }),
    {
        RuleContext {
            adjustment: self.adjustment,
            madhab: self.madhab,
            daud_strategy: self.daud_strategy,
            strict: self.strict,
            custom_rules: Vec::new(),
        }
    }
}

impl Default for RuleContext {
    fn default() -> (r: RuleContext)
        ensures
            r@ == ContextView::plain(),
    {
        RuleContext {
            adjustment: 0,
            madhab: Madhab::Shafi,
            daud_strategy: DaudStrategy::Skip,
            strict: false,
            custom_rules: Vec::new(),
        }
    }
}

impl RuleContext {
    pub fn new() -> (r: RuleContext)
        ensures
            r@ == ContextView::plain(),
    {
        RuleContext {
            adjustment: 0,
            madhab: Madhab::Shafi,
            daud_strategy: DaudStrategy::Skip,
            strict: false,
            custom_rules: Vec::new(),
        }
    }

    /// Sets the Hijri day offset, kept within thirty days either way.
    pub fn adjustment(self, adjustment: i64) -> (r: RuleContext)
        ensures
            r@ == (ContextView {
                adjustment: clamp_adjustment(adjustment as int),
                ..self@
            }),
    {
        let mut ctx = self;
        ctx.adjustment = clamped(adjustment);
        ctx
    }

    pub fn madhab(self, madhab: Madhab) -> (r: RuleContext)
        ensures
            r@ == (ContextView { madhab, ..self@ }),
    {
        let mut ctx = self;
        ctx.madhab = madhab;
        ctx
    }

    pub fn daud_strategy(self, strategy: DaudStrategy) -> (r: RuleContext)
        ensures
            r@ == (ContextView { daud_strategy: strategy, ..self@ }),
    {
        let mut ctx = self;
        ctx.daud_strategy = strategy;
        ctx
    }

    pub fn strict(self, strict: bool) -> (r: RuleContext)
        ensures
            r@ == (ContextView { strict, ..self@ }),
    {
        let mut ctx = self;
        ctx.strict = strict;
        ctx
    }

    /// Takes the adjustment that `provider` gives for `reference_date`,
    /// kept within thirty days either way. Where the provider fails, the
    /// adjustment stays as it is.
    ///
    /// The provider is asked once, about `reference_date` and without a
    /// place; the context is [`ContextView::after_provider`] for what it
    /// answers.
    pub fn with_moon_provider<M: MoonProvider>(self, provider: &M, reference_date: Date) -> (r:
        RuleContext)
        ensures
            exists|answer: Result<i64, ShaumError>|
                call_ensures(
                    M::get_adjustment,
                    (provider, reference_date, None::<GeoCoordinate>),
                    answer,
                ) && r@ == #[trigger] self@.after_provider(answer),
    {
        let ask = M::get_adjustment;
        let answer = ask(provider, reference_date, None);
        let ghost given = answer;
        let updated = match answer {
            Ok(adjustment) => self.adjustment(adjustment),
            Err(_) => self,
        };
        assert(updated@ == self@.after_provider(given));
        updated
    }

    /// Adds a custom rule after those that the context holds.
    pub fn add_custom_rule(self, rule: Box<dyn CustomFastingRule>) -> (r: RuleContext)
        ensures
            r@ == (ContextView { custom_rules: self@.custom_rules.push(rule), ..self@ }),
            r@.custom_rules.len() == self@.custom_rules.len() + 1,
    {
        let mut ctx = self;
        ctx.custom_rules.push(rule);
        proof {
            vstd::seq::axiom_seq_push_len(self.custom_rules@, rule);
        }
        ctx
    }
}

/// The text of the error for an adjustment outside the strict bounds.
pub open spec fn strict_bounds_message(adjustment: int) -> Seq<char> {
    "Adjustment "@ + signed_decimal(adjustment) + " outside strict bounds [-2, 2]"@
}

/// Builder with validation for `RuleContext`.
pub struct RuleContextBuilder {
    pub adjustment: Option<i64>,
    pub madhab: Option<Madhab>,
    pub daud_strategy: Option<DaudStrategy>,
    pub custom_rules: Vec<Box<dyn CustomFastingRule>>,
    pub strict_adjustment: bool,
    pub strict_mode: bool,
}

impl RuleContextBuilder {
    /// Whether the builder would be refused: it asks for the strict bounds
    /// and its adjustment is more than two days either way.
    pub open spec fn is_refused(&self) -> bool {
        self.strict_adjustment && (self.wanted_adjustment() < -2 || self.wanted_adjustment() > 2)
    }

    /// The adjustment that the builder asks for: none is no shift.
    pub open spec fn wanted_adjustment(&self) -> int {
        match self.adjustment {
            Some(a) => a as int,
            None => 0,
        }
    }

    pub fn new() -> (r: RuleContextBuilder)
        ensures
            r.adjustment is None,
            r.madhab is None,
            r.daud_strategy is None,
            r.custom_rules@.len() == 0,
            !r.strict_adjustment,
            !r.strict_mode,
    {
        RuleContextBuilder {
            adjustment: None,
            madhab: None,
            daud_strategy: None,
            custom_rules: Vec::new(),
            strict_adjustment: false,
            strict_mode: false,
        }
    }

    pub fn adjustment(self, adjustment: i64) -> (r: RuleContextBuilder)
        ensures
            r == (RuleContextBuilder { adjustment: Some(adjustment), ..self }),
    {
        let mut b = self;
        b.adjustment = Some(adjustment);
        b
    }

    pub fn madhab(self, madhab: Madhab) -> (r: RuleContextBuilder)
        ensures
            r == (RuleContextBuilder { madhab: Some(madhab), ..self }),
    {
        let mut b = self;
        b.madhab = Some(madhab);
        b
    }

    pub fn daud_strategy(self, strategy: DaudStrategy) -> (r: RuleContextBuilder)
        ensures
            r == (RuleContextBuilder { daud_strategy: Some(strategy), ..self }),
    {
        let mut b = self;
        b.daud_strategy = Some(strategy);
        b
    }

    pub fn add_custom_rule(self, rule: Box<dyn CustomFastingRule>) -> (r: RuleContextBuilder)
        ensures
            r == (RuleContextBuilder { custom_rules: r.custom_rules, ..self }),
            r.custom_rules@ == self.custom_rules@.push(rule),
    {
        let mut b = self;
        b.custom_rules.push(rule);
        b
    }

    /// Enables strict adjustment bounds [-2, 2].
    pub fn strict_adjustment(self, strict: bool) -> (r: RuleContextBuilder)
        ensures
            r == (RuleContextBuilder { strict_adjustment: strict, ..self }),
    {
        let mut b = self;
        b.strict_adjustment = strict;
        b
    }

    /// Has days outside the supported years refused instead of replaced.
    pub fn strict(self, strict: bool) -> (r: RuleContextBuilder)
        ensures
            r == (RuleContextBuilder { strict_mode: strict, ..self }),
    {
        let mut b = self;
        b.strict_mode = strict;
        b
    }

    /// Builds and validates.
    pub fn build(self) -> (r: Result<RuleContext, ShaumError>)
        ensures
            self.is_refused() ==> (r matches Err(ShaumError::InvalidConfiguration { reason })
                && reason@ == strict_bounds_message(self.wanted_adjustment())),
            !self.is_refused() ==> (r matches Ok(ctx) && ctx@ == (ContextView {
                adjustment: clamp_adjustment(self.wanted_adjustment()),
                madhab: match self.madhab {
                    Some(m) => m,
                    None => Madhab::Shafi,
                },
                daud_strategy: match self.daud_strategy {
                    Some(s) => s,
                    None => DaudStrategy::Skip,
                },
                strict: self.strict_mode,
                custom_rules: self.custom_rules@,
            })),
    {
        let adjustment = match self.adjustment {
            Some(a) => a,
            None => 0,
        };
        if self.strict_adjustment && (adjustment < -2 || adjustment > 2) {
            let mut reason = String::from_str("Adjustment ");
            reason.append(decimal_string(adjustment as i128).as_str());
            reason.append(" outside strict bounds [-2, 2]");
            return Err(ShaumError::InvalidConfiguration { reason });
        }
        Ok(
            RuleContext {
                adjustment: clamped(adjustment),
                madhab: match self.madhab {
                    Some(m) => m,
                    None => Madhab::Shafi,
                },
                daud_strategy: match self.daud_strategy {
                    Some(s) => s,
                    None => DaudStrategy::Skip,
                },
                strict: self.strict_mode,
                custom_rules: self.custom_rules,
            },
        )
    }
}

} // verus!
