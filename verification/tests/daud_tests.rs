use shaum::{
    analyze_date, check, generate_daud_schedule, to_hijri, CustomFastingRule, Date, DaudIterator,
    DaudScheduleBuilder, DaudStrategy, FastingStatus, FastingType, RuleContext, ShaumError,
};

fn ymd(year: i32, month: u32, day: u32) -> Date {
    Date::from_ymd_opt(year, month, day).unwrap()
}

fn plus(d: Date, days: i64) -> Date {
    d.checked_add_days(days).unwrap()
}

fn days_of(mut schedule: DaudIterator) -> Vec<Date> {
    schedule.collect().into_iter().filter_map(|r| r.ok()).collect()
}

fn eid_of_2025() -> Date {
    let mut eid_date = ymd(2025, 1, 1);
    loop {
        if let Ok(h) = to_hijri(eid_date, 0) {
            if h.month() == 10 && h.day() == 1 {
                break;
            }
        }
        eid_date = eid_date.succ_opt().unwrap();
    }
    eid_date
}

#[test]
fn test_daud_schedule() {
    let start = ymd(2025, 1, 1);
    let end = plus(start, 10);
    let schedule: Vec<Date> = generate_daud_schedule(start, end, RuleContext::default())
        .collect()
        .into_iter()
        .filter_map(|r| r.ok())
        .collect();
    assert!(!schedule.is_empty());
    for w in schedule.windows(2) {
        assert!(w[1].days_since(&w[0]) >= 2);
    }
}

#[test]
fn test_daud_schedule_builder() {
    let start = ymd(2025, 1, 1);
    let end = ymd(2025, 1, 10);
    let days: Vec<_> = DaudScheduleBuilder::new(start)
        .until(end)
        .skip_haram_days()
        .build()
        .collect()
        .into_iter()
        .filter_map(|r| r.ok())
        .collect();
    assert!(!days.is_empty());
}

#[test]
fn test_daud_skip_strategy() {
    // Find Eid al-Fitr (1 Shawwal)
    let eid_date = eid_of_2025();

    // Use Builder with Skip strategy
    let ctx = RuleContext::new().daud_strategy(DaudStrategy::Skip);

    // Start exactly on Eid.
    // Expectation: Eid is skipped (Haram). Turn was "Fast", so we toggle to "Eat".
    // Next day (Eid+1): My turn is "Eat". So result: Not in list.
    // Next day (Eid+2): My turn is "Fast". Result: In list.

    let mut iter = generate_daud_schedule(eid_date, plus(eid_date, 5), ctx);
    let days: Vec<Date> = iter.collect().into_iter().filter_map(|r| r.ok()).collect();

    assert!(!days.contains(&eid_date), "Should not fast on Eid");
    assert!(!days.contains(&plus(eid_date, 1)), "Should eat on Eid+1 (Skip strategy)");
    assert!(days.contains(&plus(eid_date, 2)), "Should fast on Eid+2");
    assert_eq!(days, vec![plus(eid_date, 2), plus(eid_date, 4)]);
}

#[test]
fn test_daud_postpone_strategy() {
    // Find Eid al-Fitr
    let eid_date = eid_of_2025();

    // Use Builder with Postpone strategy
    let ctx = RuleContext::new().daud_strategy(DaudStrategy::Postpone);

    // Start strictly on Eid.
    // Expectation: Eid is skipped (Haram). Turn was "Fast". Do NOT toggle.
    // Next day (Eid+1): My turn implies "Fast" (debt). Result: In list.
    // Next day (Eid+2): Toggle to "Eat". Result: Not in list.

    let mut iter = generate_daud_schedule(eid_date, plus(eid_date, 5), ctx);
    let days: Vec<Date> = iter.collect().into_iter().filter_map(|r| r.ok()).collect();

    assert!(!days.contains(&eid_date), "Should not fast on Eid");
    assert!(days.contains(&plus(eid_date, 1)), "Should fast on Eid+1 (Postpone strategy)");
    assert!(!days.contains(&plus(eid_date, 2)), "Should eat on Eid+2");
    assert_eq!(days, vec![plus(eid_date, 1), plus(eid_date, 3), plus(eid_date, 5)]);
}

#[test]
fn plain_days_alternate() {
    // 3 to 9 January 2025 hold no forbidden day
    let start = ymd(2025, 1, 3);
    let days = days_of(generate_daud_schedule(start, plus(start, 6), RuleContext::new()));
    assert_eq!(days, vec![start, plus(start, 2), plus(start, 4), plus(start, 6)]);
    let one = days_of(generate_daud_schedule(start, start, RuleContext::new()));
    assert_eq!(one, vec![start]);
    let none = days_of(generate_daud_schedule(start, plus(start, -1), RuleContext::new()));
    assert!(none.is_empty());
}

#[test]
fn next_gives_the_days_one_by_one() {
    let start = ymd(2025, 1, 3);
    let mut it = DaudIterator::new(start, plus(start, 3), RuleContext::new());
    assert_eq!(it.debt(), 0);
    assert_eq!(it.next().unwrap().unwrap(), start);
    assert_eq!(it.next().unwrap().unwrap(), plus(start, 2));
    assert!(it.next().is_none());
    assert!(it.next().is_none());
    assert!(it.collect().is_empty());
    assert_eq!(it.debt(), 0);
    // a window that ends before it starts gives nothing, and owes nothing
    let mut empty = DaudIterator::new(start, plus(start, -1), RuleContext::new());
    assert!(empty.next().is_none());
    assert_eq!(empty.debt(), 0);
}

#[test]
fn tashriq_days_with_both_strategies() {
    // 16 June 2024 is 10 Dhul-Hijjah 1445; the 17th to the 19th are Tashriq
    let adha = ymd(2024, 6, 16);
    assert_eq!(to_hijri(adha, 0).unwrap().day(), 10);
    let start = plus(adha, -1);
    let end = plus(adha, 6);
    let skip = days_of(generate_daud_schedule(start, end, RuleContext::new()));
    // day 15 fast; 16..19 forbidden: the turn flips four times and is to abstain on the 16th,
    // so it is to abstain again on the 20th
    assert_eq!(skip, vec![start, plus(adha, 5)]);
    let postpone = days_of(generate_daud_schedule(
        start,
        end,
        RuleContext::new().daud_strategy(DaudStrategy::Postpone),
    ));
    // the turn to abstain waits for the 20th
    assert_eq!(postpone, vec![start, plus(adha, 5)]);
    let from_eid = days_of(generate_daud_schedule(
        adha,
        end,
        RuleContext::new().daud_strategy(DaudStrategy::Postpone),
    ));
    assert_eq!(from_eid, vec![plus(adha, 4), plus(adha, 6)]);
    let from_eid_skip = days_of(generate_daud_schedule(adha, end, RuleContext::new()));
    // four forbidden days flip the turn four times: it is to fast on the 20th
    assert_eq!(from_eid_skip, vec![plus(adha, 4), plus(adha, 6)]);
}

#[test]
fn daud_skips_haram() {
    let start = ymd(2025, 1, 1);
    for strategy in [DaudStrategy::Skip, DaudStrategy::Postpone] {
        let mut days: i64 = 0;
        while days < 1000 {
            let end = plus(start, days);
            let ctx = RuleContext::new().daud_strategy(strategy);
            let daud_days = days_of(generate_daud_schedule(start, end, ctx));
            for w in daud_days.windows(2) {
                assert!(w[1].days_since(&w[0]) >= 2);
            }
            for date in daud_days {
                let analysis = analyze_date(date);
                assert!(
                    !analysis.primary_status.is_haram(),
                    "Daud recommended Haram day: {:?}",
                    date
                );
                assert!(!date.is_before(&start) && !date.is_after(&end));
            }
            days += 83;
        }
    }
}

#[test]
fn the_schedule_ends_at_the_end_of_the_calendar() {
    let last = Date::from_num_days_from_ce_opt(shaum::civil::MAX_DAY_NUMBER).unwrap();
    let start = plus(last, -4);
    let days = days_of(generate_daud_schedule(start, last, RuleContext::new()));
    // the last day of the calendar has no day after it and is not given
    assert!(!days.contains(&last));
    assert!(days.len() <= 2);
    for d in &days {
        assert!(!d.is_before(&start));
    }
}

#[test]
fn builder_settings() {
    let start = ymd(2025, 1, 1);
    let b = DaudScheduleBuilder::new(start);
    assert_eq!(b.start, start);
    assert!(b.end.is_none());
    assert_eq!(b.context.daud_strategy, DaudStrategy::Skip);
    let b = b.postpone_on_haram();
    assert_eq!(b.context.daud_strategy, DaudStrategy::Postpone);
    let b = b.skip_haram_days();
    assert_eq!(b.context.daud_strategy, DaudStrategy::Skip);
    let b = b.with_context(RuleContext::new().adjustment(1).daud_strategy(DaudStrategy::Postpone));
    assert_eq!(b.context.adjustment, 1);
    assert_eq!(b.context.daud_strategy, DaudStrategy::Postpone);
    let b = b.until(ymd(2025, 1, 5));
    assert_eq!(b.end, Some(ymd(2025, 1, 5)));
    let b = DaudIterator::starting_from(start);
    assert_eq!(b.start, start);
    assert!(b.end.is_none());
    // without an end the schedule covers a year
    let year = days_of(DaudIterator::starting_from(start).build());
    assert_eq!(*year.first().unwrap(), start);
    assert!(!year.last().unwrap().is_after(&plus(start, 365)));
    assert!(year.last().unwrap().is_after(&plus(start, 362)));
    // near the end of the calendar the year is cut short
    let last = Date::from_num_days_from_ce_opt(shaum::civil::MAX_DAY_NUMBER).unwrap();
    let short = days_of(DaudIterator::starting_from(plus(last, -3)).build());
    assert!(short.len() <= 2);
}

struct NoFastInSafar;

impl CustomFastingRule for NoFastInSafar {
    fn ruling(
        &self,
        date: Date,
        hijri_year: usize,
        hijri_month: usize,
        hijri_day: usize,
    ) -> Option<(FastingStatus, FastingType)> {
        self.evaluate(date, hijri_year, hijri_month, hijri_day)
    }

    fn evaluate(
        &self,
        _date: Date,
        _hijri_year: usize,
        hijri_month: usize,
        _hijri_day: usize,
    ) -> Option<(FastingStatus, FastingType)> {
        if hijri_month == 2 {
            Some((FastingStatus::Haram, FastingType::custom("Rest")))
        } else {
            None
        }
    }
}

#[test]
fn days_that_a_custom_rule_forbids_are_passed_over() {
    // 5 August 2024 is 1 Safar 1446
    let start = ymd(2024, 8, 3);
    assert_eq!(to_hijri(ymd(2024, 8, 5), 0).unwrap().month(), 2);
    assert_eq!(to_hijri(ymd(2024, 8, 4), 0).unwrap().month(), 1);
    let ctx = RuleContext::new().add_custom_rule(Box::new(NoFastInSafar));
    assert_eq!(check(ymd(2024, 8, 5), &ctx).primary_status, FastingStatus::Haram);
    let days = days_of(generate_daud_schedule(start, plus(start, 6), ctx));
    assert_eq!(days, vec![start]);
}

#[test]
fn a_strict_context_answers_days_outside_the_supported_years_with_the_error() {
    // 2076 ends on a Thursday; the supported years end with it
    let start = Date::from_ymd_opt(2076, 12, 29).unwrap();
    let end = Date::from_ymd_opt(2077, 1, 3).unwrap();
    let strict = RuleContext::new().strict(true);
    let items = generate_daud_schedule(start, end, strict).collect();
    let days: Vec<Option<Date>> = items.iter().map(|r| r.as_ref().ok().copied()).collect();
    // 29 fast, 30 abstain, 31 fast, then three days that cannot be judged
    assert_eq!(
        days,
        vec![Some(start), Some(Date::from_ymd_opt(2076, 12, 31).unwrap()), None, None, None]
    );
    for (i, item) in items.iter().enumerate().skip(2) {
        match item {
            Err(ShaumError::DateOutOfRange { date, min, max }) => {
                assert_eq!(*date, Date::from_ymd_opt(2077, 1, (i - 1) as u32).unwrap());
                assert_eq!(*min, Date::from_ymd_opt(1938, 1, 1).unwrap());
                assert_eq!(*max, Date::from_ymd_opt(2076, 12, 31).unwrap());
            }
            other => panic!("unexpected item {:?}", other),
        }
    }
    // a lenient context judges them by the nearest supported day
    let lenient = days_of(generate_daud_schedule(start, end, RuleContext::new()));
    assert!(lenient.contains(&Date::from_ymd_opt(2077, 1, 2).unwrap()));
    // the turn is kept over a day that cannot be judged
    let from_outside = generate_daud_schedule(
        Date::from_ymd_opt(1937, 12, 30).unwrap(),
        Date::from_ymd_opt(1938, 1, 2).unwrap(),
        RuleContext::new().strict(true),
    )
    .collect();
    assert!(from_outside[0].is_err());
    assert!(from_outside[1].is_err());
    assert_eq!(from_outside[2].as_ref().ok().copied(), Date::from_ymd_opt(1938, 1, 1));
    assert_eq!(from_outside.len(), 3);
}
