use shaum::rules::find_haram;
use shaum::{
    analyze, analyze_date, can_check, check, consult, evaluate, resolve, to_hijri,
    CustomFastingRule, Date,
    DateTime, FastingAnalysis, FastingStatus, FastingType, HijriDate, Madhab, RuleContext,
    RuleTrace, ShaumError, TraceCode, TraceList, Weekday,
};

fn ymd(year: i32, month: u32, day: u32) -> Date {
    Date::from_ymd_opt(year, month, day).unwrap()
}

fn find_hijri_date(year: usize, month: usize, day: usize) -> Date {
    let mut d = ymd(2023, 1, 1);
    for _ in 0..2000 {
        let h = to_hijri(d, 0).unwrap();
        if h.year() == year && h.month() == month && h.day() == day {
            return d;
        }
        d = d.succ_opt().unwrap();
    }
    panic!("Date not found for {}/{}/{}", year, month, day);
}

/// A day of the week of March 2024 with the wanted weekday: the 11th is a Monday.
fn day_with(weekday: Weekday) -> Date {
    let offset = match weekday {
        Weekday::Mon => 0,
        Weekday::Tue => 1,
        Weekday::Wed => 2,
        Weekday::Thu => 3,
        Weekday::Fri => 4,
        Weekday::Sat => 5,
        Weekday::Sun => 6,
    };
    let d = ymd(2024, 3, 11 + offset);
    assert_eq!(d.weekday(), weekday);
    d
}

fn judge(month: usize, day: usize, weekday: Weekday) -> FastingAnalysis {
    let date = day_with(weekday);
    evaluate(
        date.noon(),
        date,
        HijriDate { year: 1445, month, day },
        Madhab::Shafi,
        TraceList::new(),
        Vec::new(),
    )
}

fn names(analysis: &FastingAnalysis) -> Vec<String> {
    analysis.reasons().iter().map(|r| r.as_str().to_string()).collect()
}

fn codes(analysis: &FastingAnalysis) -> Vec<TraceCode> {
    analysis.traces().iter().map(|t| t.code).collect()
}

#[test]
fn test_eid_al_fitr_is_haram() {
    let eid = find_hijri_date(1445, 10, 1);
    let analysis = check(eid, &RuleContext::default());
    assert!(analysis.primary_status.is_haram());
    assert!(analysis.has_reason(&FastingType::EidAlFitr()));
}

#[test]
fn test_eid_al_adha_is_haram() {
    let eid = find_hijri_date(1445, 12, 10);
    let analysis = check(eid, &RuleContext::default());
    assert!(analysis.primary_status.is_haram());
    assert!(analysis.has_reason(&FastingType::EidAlAdha()));
}

#[test]
fn test_tashriq_haram() {
    let tashriq = find_hijri_date(1445, 12, 11);
    let analysis = check(tashriq, &RuleContext::default());
    assert!(analysis.primary_status.is_haram());
    assert!(analysis.has_reason(&FastingType::Tashriq()));
}

#[test]
fn test_ramadhan_wajib() {
    let ramadhan = find_hijri_date(1445, 9, 1);
    let analysis = check(ramadhan, &RuleContext::default());
    assert!(analysis.primary_status.is_wajib());
    assert!(analysis.has_reason(&FastingType::Ramadhan()));
}

#[test]
fn test_arafah_sunnah() {
    let arafah = find_hijri_date(1445, 12, 9);
    let analysis = check(arafah, &RuleContext::default());
    assert_eq!(analysis.primary_status, FastingStatus::SunnahMuakkadah);
    assert!(analysis.has_reason(&FastingType::Arafah()));
}

#[test]
fn test_friday_makruh_vs_sunnah() {
    let mut d = ymd(2020, 1, 1);
    for _ in 0..5000 {
        let h = to_hijri(d, 0).unwrap();
        if h.month() == 12 && h.day() == 9 && d.weekday() == Weekday::Fri {
            let analysis = check(d, &RuleContext::default());
            assert_eq!(analysis.primary_status, FastingStatus::SunnahMuakkadah);
            return;
        }
        d = d.succ_opt().unwrap();
    }
    panic!("Could not find Arafah on Friday");
}

#[test]
fn test_adjustment_shifts_date() {
    let d = find_hijri_date(1445, 9, 1);
    let ctx = RuleContext::new().adjustment(-1);
    let analysis = check(d, &ctx);
    assert_ne!(analysis.primary_status, FastingStatus::Wajib);
}

#[test]
fn test_explain_output() {
    let ramadhan = find_hijri_date(1445, 9, 15);
    let analysis = check(ramadhan, &RuleContext::default());
    assert!(analysis.explain().contains("Ramadhan"));
}

#[test]
fn test_arafah_friday_not_makruh() {
    // Find an Arafah that falls on Friday
    let mut d = ymd(2025, 6, 1);
    let mut found = false;

    for _ in 0..5000 {
        if let Ok(h) = to_hijri(d, 0) {
            // 9 Dhul Hijjah
            if h.month() == 12 && h.day() == 9 {
                if d.weekday() == Weekday::Fri {
                    let ctx = RuleContext::new().madhab(Madhab::Shafi);
                    let analysis = analyze(d.noon(), &ctx, None).unwrap();

                    // Should be Sunnah, NOT Makruh
                    assert!(!analysis.primary_status.is_haram());
                    assert_ne!(analysis.primary_status, FastingStatus::Makruh);
                    assert_eq!(analysis.primary_status, FastingStatus::SunnahMuakkadah);
                    println!("Date: {:?}, Status: {:?}", d, analysis.primary_status);

                    found = true;
                    break;
                }
            }
        }
        d = d.succ_opt().unwrap();
    }
    assert!(found, "Did not find Arafah on Friday to test");
}

#[test]
fn shawwal_first_is_haram_with_one_reason() {
    let eid = ymd(2024, 4, 10);
    assert_eq!(to_hijri(eid, 0).unwrap(), HijriDate { year: 1445, month: 10, day: 1 });
    let analysis = check(eid, &RuleContext::default());
    assert_eq!(analysis.primary_status, FastingStatus::Haram);
    assert_eq!(names(&analysis), vec!["EidAlFitr"]);
    assert_eq!(analysis.reason_count(), 1);
    assert_eq!(codes(&analysis), vec![TraceCode::EidAlFitr]);
    assert_eq!((analysis.hijri_year, analysis.hijri_month, analysis.hijri_day), (1445, 10, 1));
    assert_eq!(analysis.date, eid.noon());
    assert!(analysis.is_eid());
    assert!(!analysis.is_tashriq());
}

#[test]
fn first_of_ramadhan_is_wajib() {
    let day = ymd(2024, 3, 11);
    assert_eq!(to_hijri(day, 0).unwrap(), HijriDate { year: 1445, month: 9, day: 1 });
    let analysis = analyze_date(day);
    assert_eq!(analysis.primary_status, FastingStatus::Wajib);
    assert!(analysis.has_reason(&FastingType::Ramadhan()));
    assert!(analysis.is_ramadhan());
    // a Monday: the weekday is recorded as well, and does not lower the status
    assert_eq!(names(&analysis), vec!["Ramadhan", "Monday"]);
    assert_eq!(codes(&analysis), vec![TraceCode::Ramadhan, TraceCode::Monday]);
}

#[test]
fn haram_days_end_the_evaluation() {
    for weekday in [Weekday::Mon, Weekday::Thu, Weekday::Fri, Weekday::Sat, Weekday::Wed] {
        let fitr = judge(10, 1, weekday);
        assert_eq!(fitr.primary_status, FastingStatus::Haram);
        assert_eq!(names(&fitr), vec!["EidAlFitr"]);
        assert_eq!(codes(&fitr), vec![TraceCode::EidAlFitr]);
        let adha = judge(12, 10, weekday);
        assert_eq!(adha.primary_status, FastingStatus::Haram);
        assert_eq!(names(&adha), vec!["EidAlAdha"]);
        assert_eq!(codes(&adha), vec![TraceCode::EidAlAdha]);
        for day in 11..=13 {
            let tashriq = judge(12, day, weekday);
            assert_eq!(tashriq.primary_status, FastingStatus::Haram);
            assert_eq!(names(&tashriq), vec!["Tashriq"]);
            assert_eq!(codes(&tashriq), vec![TraceCode::Tashriq]);
            assert!(tashriq.is_tashriq());
        }
    }
    assert_eq!(find_haram(&HijriDate { year: 1445, month: 10, day: 1 }), Some(TraceCode::EidAlFitr));
    assert_eq!(find_haram(&HijriDate { year: 1445, month: 12, day: 10 }), Some(TraceCode::EidAlAdha));
    assert_eq!(find_haram(&HijriDate { year: 1445, month: 12, day: 11 }), Some(TraceCode::Tashriq));
    assert_eq!(find_haram(&HijriDate { year: 1445, month: 12, day: 13 }), Some(TraceCode::Tashriq));
    assert_eq!(find_haram(&HijriDate { year: 1445, month: 12, day: 14 }), None);
    assert_eq!(find_haram(&HijriDate { year: 1445, month: 12, day: 9 }), None);
    assert_eq!(find_haram(&HijriDate { year: 1445, month: 10, day: 2 }), None);
    assert_eq!(find_haram(&HijriDate { year: 1445, month: 11, day: 10 }), None);
}

#[test]
fn custom_answers_are_not_looked_at_on_a_haram_day() {
    let date = day_with(Weekday::Wed);
    let analysis = evaluate(
        date.noon(),
        date,
        HijriDate { year: 1445, month: 10, day: 1 },
        Madhab::Shafi,
        TraceList::new(),
        vec![Some((FastingStatus::Sunnah, FastingType::custom("Vow")))],
    );
    assert_eq!(analysis.primary_status, FastingStatus::Haram);
    assert_eq!(names(&analysis), vec!["EidAlFitr"]);
}

#[test]
fn every_day_of_ramadhan_is_wajib() {
    for day in 1..=30 {
        for weekday in [
            Weekday::Mon,
            Weekday::Tue,
            Weekday::Wed,
            Weekday::Thu,
            Weekday::Fri,
            Weekday::Sat,
            Weekday::Sun,
        ] {
            let analysis = judge(9, day, weekday);
            assert_eq!(analysis.primary_status, FastingStatus::Wajib);
            assert_eq!(names(&analysis)[0], "Ramadhan");
            assert!(!analysis.has_reason(&FastingType::FridayExclusive()));
            assert!(!analysis.has_reason(&FastingType::SaturdayExclusive()));
        }
    }
    let white = judge(9, 14, Weekday::Thu);
    assert_eq!(names(&white), vec!["Ramadhan", "AyyamulBidh", "Thursday"]);
}

#[test]
fn strongly_recommended_days() {
    let arafah = judge(12, 9, Weekday::Wed);
    assert_eq!(arafah.primary_status, FastingStatus::SunnahMuakkadah);
    assert_eq!(names(&arafah), vec!["Arafah"]);
    assert!(arafah.is_arafah());
    let ashura = judge(1, 10, Weekday::Wed);
    assert_eq!(ashura.primary_status, FastingStatus::SunnahMuakkadah);
    assert_eq!(names(&ashura), vec!["Ashura"]);
    assert!(ashura.is_ashura());
    // a weekday reason is recorded and does not lower the status
    let monday = judge(12, 9, Weekday::Mon);
    assert_eq!(monday.primary_status, FastingStatus::SunnahMuakkadah);
    assert_eq!(names(&monday), vec!["Arafah", "Monday"]);
    // on a Friday or Saturday the day stays strongly recommended
    assert_eq!(judge(12, 9, Weekday::Fri).primary_status, FastingStatus::SunnahMuakkadah);
    assert_eq!(names(&judge(12, 9, Weekday::Fri)), vec!["Arafah"]);
    assert_eq!(judge(1, 10, Weekday::Sat).primary_status, FastingStatus::SunnahMuakkadah);
}

#[test]
fn recommended_days() {
    let tasua = judge(1, 9, Weekday::Wed);
    assert_eq!(tasua.primary_status, FastingStatus::Sunnah);
    assert_eq!(names(&tasua), vec!["Tasua"]);
    for day in 13..=15 {
        let white = judge(5, day, Weekday::Wed);
        assert_eq!(white.primary_status, FastingStatus::Sunnah);
        assert_eq!(names(&white), vec!["AyyamulBidh"]);
        assert!(white.is_white_day());
    }
    assert_eq!(judge(5, 12, Weekday::Wed).primary_status, FastingStatus::Mubah);
    assert_eq!(judge(5, 16, Weekday::Wed).primary_status, FastingStatus::Mubah);
    let monday = judge(5, 20, Weekday::Mon);
    assert_eq!(monday.primary_status, FastingStatus::Sunnah);
    assert_eq!(names(&monday), vec!["Monday"]);
    let thursday = judge(5, 20, Weekday::Thu);
    assert_eq!(thursday.primary_status, FastingStatus::Sunnah);
    assert_eq!(names(&thursday), vec!["Thursday"]);
    let shawwal = judge(10, 2, Weekday::Wed);
    assert_eq!(shawwal.primary_status, FastingStatus::Sunnah);
    assert_eq!(names(&shawwal), vec!["Shawwal"]);
    assert_eq!(judge(10, 30, Weekday::Wed).primary_status, FastingStatus::Sunnah);
    let many = judge(10, 14, Weekday::Thu);
    assert_eq!(many.primary_status, FastingStatus::Sunnah);
    assert_eq!(names(&many), vec!["AyyamulBidh", "Thursday", "Shawwal"]);
    assert_eq!(codes(&many), vec![TraceCode::AyyamulBidh, TraceCode::Thursday, TraceCode::Shawwal]);
}

#[test]
fn friday_and_saturday_alone_are_makruh() {
    let friday = judge(5, 20, Weekday::Fri);
    assert_eq!(friday.primary_status, FastingStatus::Makruh);
    assert_eq!(names(&friday), vec!["FridayExclusive"]);
    assert_eq!(codes(&friday), vec![TraceCode::FridaySingledOut]);
    let saturday = judge(5, 20, Weekday::Sat);
    assert_eq!(saturday.primary_status, FastingStatus::Makruh);
    assert_eq!(names(&saturday), vec!["SaturdayExclusive"]);
    assert_eq!(codes(&saturday), vec![TraceCode::SaturdaySingledOut]);
    // with an occasion of its own the day is not disliked
    let white_friday = judge(5, 13, Weekday::Fri);
    assert_eq!(white_friday.primary_status, FastingStatus::Sunnah);
    assert_eq!(names(&white_friday), vec!["AyyamulBidh"]);
    assert_eq!(judge(10, 5, Weekday::Sat).primary_status, FastingStatus::Sunnah);
    assert_eq!(judge(1, 9, Weekday::Fri).primary_status, FastingStatus::Sunnah);
    // the four schools agree
    for madhab in [Madhab::Shafi, Madhab::Hanafi, Madhab::Maliki, Madhab::Hanbali] {
        let date = day_with(Weekday::Fri);
        let a = evaluate(
            date.noon(),
            date,
            HijriDate { year: 1445, month: 5, day: 20 },
            madhab,
            TraceList::new(),
            Vec::new(),
        );
        assert_eq!(a.primary_status, FastingStatus::Makruh);
    }
}

#[test]
fn plain_days_are_mubah() {
    for weekday in [Weekday::Tue, Weekday::Wed, Weekday::Sun] {
        let plain = judge(5, 20, weekday);
        assert_eq!(plain.primary_status, FastingStatus::Mubah);
        assert_eq!(plain.reason_count(), 0);
        assert!(names(&plain).is_empty());
        assert!(codes(&plain).is_empty());
    }
}

struct Vow(FastingStatus);

impl CustomFastingRule for Vow {
    fn ruling(
        &self,
        date: Date,
        hijri_year: usize,
        hijri_month: usize,
        hijri_day: usize,
    ) -> Option<(FastingStatus, FastingType)> {
        self.evaluate(date, hijri_year, hijri_month, hijri_day)
    }

    fn evaluate(
        &self,
        _date: Date,
        _hijri_year: usize,
        hijri_month: usize,
        _hijri_day: usize,
    ) -> Option<(FastingStatus, FastingType)> {
        if hijri_month == 8 {
            Some((self.0, FastingType::custom("Vow")))
        } else {
            None
        }
    }
}

#[test]
fn custom_rules_raise_and_never_lower() {
    let date = day_with(Weekday::Wed);
    let hijri = HijriDate { year: 1445, month: 5, day: 20 };
    let raised = evaluate(
        date.noon(),
        date,
        hijri,
        Madhab::Shafi,
        TraceList::new(),
        vec![None, Some((FastingStatus::Sunnah, FastingType::custom("Vow")))],
    );
    assert_eq!(raised.primary_status, FastingStatus::Sunnah);
    assert_eq!(names(&raised), vec!["Vow"]);
    let traces = raised.traces();
    assert_eq!(traces.len(), 1);
    assert_eq!(traces[0].code, TraceCode::Custom);
    assert_eq!(traces[0].details.as_deref(), Some("Vow"));

    // a lower answer is recorded and leaves the status as it is
    let ramadhan = HijriDate { year: 1445, month: 9, day: 3 };
    let kept = evaluate(
        date.noon(),
        date,
        ramadhan,
        Madhab::Shafi,
        TraceList::new(),
        vec![Some((FastingStatus::Makruh, FastingType::custom("Tired")))],
    );
    assert_eq!(kept.primary_status, FastingStatus::Wajib);
    assert_eq!(names(&kept), vec!["Ramadhan", "Tired"]);

    // a custom rule may forbid
    let forbidden = evaluate(
        date.noon(),
        date,
        hijri,
        Madhab::Shafi,
        TraceList::new(),
        vec![
            Some((FastingStatus::Haram, FastingType::custom("Illness"))),
            Some((FastingStatus::Sunnah, FastingType::custom("Vow"))),
        ],
    );
    assert_eq!(forbidden.primary_status, FastingStatus::Haram);
    assert_eq!(names(&forbidden), vec!["Illness", "Vow"]);

    // the order of the answers does not change the status
    let swapped = evaluate(
        date.noon(),
        date,
        hijri,
        Madhab::Shafi,
        TraceList::new(),
        vec![
            Some((FastingStatus::Sunnah, FastingType::custom("Vow"))),
            Some((FastingStatus::Haram, FastingType::custom("Illness"))),
        ],
    );
    assert_eq!(swapped.primary_status, FastingStatus::Haram);

    // a disliked Friday stays recorded when a custom rule raises the day
    let friday = day_with(Weekday::Fri);
    let both = evaluate(
        friday.noon(),
        friday,
        hijri,
        Madhab::Shafi,
        TraceList::new(),
        vec![Some((FastingStatus::Sunnah, FastingType::custom("Vow")))],
    );
    assert_eq!(both.primary_status, FastingStatus::Sunnah);
    assert_eq!(names(&both), vec!["FridayExclusive", "Vow"]);
}

#[test]
fn custom_rules_of_a_context_are_asked() {
    // 6 March 2024 is a Wednesday in Sha'ban
    let day = ymd(2024, 3, 6);
    assert_eq!(to_hijri(day, 0).unwrap().month(), 8);
    let ctx = RuleContext::new().add_custom_rule(Box::new(Vow(FastingStatus::Sunnah)));
    let analysis = check(day, &ctx);
    assert_eq!(analysis.primary_status, FastingStatus::Sunnah);
    assert!(analysis.has_reason(&FastingType::custom("Vow")));
    assert_eq!(check(day, &RuleContext::new()).primary_status, FastingStatus::Mubah);
    let answers = consult(&ctx, day, &to_hijri(day, 0).unwrap());
    assert_eq!(answers.len(), 1);
    assert_eq!(answers[0], Some((FastingStatus::Sunnah, FastingType::custom("Vow"))));
    let none = consult(&ctx, day, &HijriDate { year: 1445, month: 7, day: 1 });
    assert_eq!(none, vec![None]);
    // a copy of a context has no custom rules
    let copy = ctx.clone();
    assert_eq!(copy.custom_rules.len(), 0);
    assert_eq!(check(day, &copy).primary_status, FastingStatus::Mubah);
}

#[test]
fn sunset_moves_the_instant_to_the_next_day() {
    // 9 April 2024 is the last day of Ramadhan 1445, the 10th is Eid
    let day = ymd(2024, 4, 9);
    let sunset = day.and_hms_opt(11, 0, 0).unwrap();
    let ctx = RuleContext::new();
    let before = analyze(day.and_hms_opt(10, 59, 59).unwrap(), &ctx, Some(sunset)).unwrap();
    assert_eq!(before.primary_status, FastingStatus::Wajib);
    assert_eq!((before.hijri_month, before.hijri_day), (9, 30));
    let at = analyze(sunset, &ctx, Some(sunset)).unwrap();
    assert_eq!(at.primary_status, FastingStatus::Wajib);
    let after = analyze(day.and_hms_opt(11, 0, 1).unwrap(), &ctx, Some(sunset)).unwrap();
    assert_eq!(after.primary_status, FastingStatus::Haram);
    assert_eq!((after.hijri_month, after.hijri_day), (10, 1));
    assert_eq!(names(&after), vec!["EidAlFitr"]);
    let traces = after.traces();
    assert_eq!(traces.len(), 2);
    assert_eq!(traces[0].code, TraceCode::Debug);
    assert_eq!(traces[0].details.as_deref(), Some("Post-Maghrib: Effective date +1"));
    assert_eq!(traces[1].code, TraceCode::EidAlFitr);
    assert_eq!(after.date, day.and_hms_opt(11, 0, 1).unwrap());
    // a nanosecond after sunset is after sunset
    let just = DateTime::from_timestamp(sunset.timestamp(), 1).unwrap();
    assert_eq!(analyze(just, &ctx, Some(sunset)).unwrap().primary_status, FastingStatus::Haram);
    // without a sunset the day does not change
    let late = analyze(day.and_hms_opt(23, 59, 59).unwrap(), &ctx, None).unwrap();
    assert_eq!(late.primary_status, FastingStatus::Wajib);
    // the weekday is that of the day that counts: 9 April 2024 is a Tuesday
    let found = resolve(day.and_hms_opt(11, 0, 1).unwrap(), &ctx, Some(sunset)).unwrap();
    assert_eq!(found.day, ymd(2024, 4, 10));
    assert_eq!(found.day.weekday(), Weekday::Wed);
    assert_eq!(found.hijri, HijriDate { year: 1445, month: 10, day: 1 });
}

#[test]
fn strict_context_refuses_days_outside_the_supported_years() {
    let strict = RuleContext::new().strict(true);
    match analyze(ymd(3000, 1, 1).noon(), &strict, None) {
        Err(ShaumError::DateOutOfRange { date, min, max }) => {
            assert_eq!(date, ymd(3000, 1, 1));
            assert_eq!(min, ymd(1938, 1, 1));
            assert_eq!(max, ymd(2076, 12, 31));
        }
        other => panic!("unexpected answer {:?}", other.map(|a| a.primary_status)),
    }
    assert!(analyze(ymd(1937, 12, 31).noon(), &strict, None).is_err());
    assert!(analyze(ymd(1938, 1, 1).noon(), &strict, None).is_ok());
    assert!(analyze(ymd(2076, 12, 31).noon(), &strict, None).is_ok());
    assert!(analyze(ymd(2077, 1, 1).noon(), &strict, None).is_err());
    // the adjusted day decides
    let shifted = RuleContext::new().strict(true).adjustment(1);
    assert!(analyze(ymd(1937, 12, 31).noon(), &shifted, None).is_ok());
    assert!(analyze(ymd(2076, 12, 31).noon(), &shifted, None).is_err());
    // which days a context can be asked about with check
    assert!(!can_check(ymd(3000, 1, 1), &strict));
    assert!(!can_check(ymd(1937, 12, 31), &strict));
    assert!(can_check(ymd(1938, 1, 1), &strict));
    assert!(can_check(ymd(2076, 12, 31), &strict));
    assert!(!can_check(ymd(2077, 1, 1), &strict));
    assert!(can_check(ymd(1937, 12, 31), &shifted));
    assert!(!can_check(ymd(2076, 12, 31), &shifted));
    assert!(can_check(ymd(3000, 1, 1), &RuleContext::new()));
    assert!(can_check(ymd(1900, 1, 1), &RuleContext::new().adjustment(-30)));
    let inside = check(ymd(2024, 3, 11), &strict);
    assert_eq!(inside.primary_status, FastingStatus::Wajib);
}

#[test]
fn lenient_context_takes_the_nearest_supported_day() {
    let ctx = RuleContext::new();
    let late = analyze(ymd(3000, 1, 1).noon(), &ctx, None).unwrap();
    let last = to_hijri(ymd(2076, 12, 31), 0).unwrap();
    assert_eq!((late.hijri_year, late.hijri_month, late.hijri_day), (last.year(), last.month(), last.day()));
    let traces = late.traces();
    assert_eq!(traces[0].code, TraceCode::Debug);
    assert_eq!(
        traces[0].details.as_deref(),
        Some("Date 3000-01-01 outside supported Hijri range (1938-2076). Clamping applied.")
    );
    let early = analyze(ymd(1900, 1, 1).noon(), &ctx, None).unwrap();
    assert_eq!(
        early.traces()[0].details.as_deref(),
        Some("Date 1900-01-01 outside supported Hijri range (1938-2076). Clamping applied.")
    );
    // 1900-01-01 is a Monday, and 1 January 1938 stands in for it: a day of Shawwal
    assert_eq!(early.hijri_month, 10);
    assert!(early.hijri_day > 1);
    assert_eq!(
        early.explain(),
        "Debug: Date 1900-01-01 outside supported Hijri range (1938-2076). Clamping applied.; \
         Monday; Shawwal"
    );
    let first = to_hijri(ymd(1938, 1, 1), 0).unwrap();
    assert_eq!((early.hijri_year, early.hijri_month, early.hijri_day), (first.year(), first.month(), first.day()));
    // inside the range nothing is said about it
    let inside = analyze(ymd(2024, 3, 6).noon(), &ctx, None).unwrap();
    assert!(inside.traces().is_empty());
    // the ends of the calendar
    let first_day = Date::from_num_days_from_ce_opt(shaum::civil::MIN_DAY_NUMBER).unwrap();
    let last_day = Date::from_num_days_from_ce_opt(shaum::civil::MAX_DAY_NUMBER).unwrap();
    assert!(analyze(first_day.noon(), &RuleContext::new().adjustment(-30), None).is_ok());
    assert!(analyze(last_day.noon(), &RuleContext::new().adjustment(30), None).is_ok());
    // after sunset on the last day of the calendar there is no next day
    let sunset = last_day.and_hms_opt(11, 0, 0).unwrap();
    assert!(analyze(last_day.noon(), &ctx, Some(sunset)).is_err());
}

#[test]
fn no_panic_analyze_invariant() {
    let base = ymd(1900, 1, 1);
    let mut days: i64 = 0;
    while days < 73000 {
        let date = base.checked_add_days(days).unwrap();
        let _ = analyze_date(date);
        days += 13;
    }
}

#[test]
fn haram_trumps_all() {
    let base = ymd(1900, 1, 1);
    let mut days: i64 = 0;
    while days < 73000 {
        let date = base.checked_add_days(days).unwrap();
        let analysis = analyze_date(date);
        if analysis.has_reason(&FastingType::EidAlFitr())
            || analysis.has_reason(&FastingType::EidAlAdha())
            || analysis.has_reason(&FastingType::Tashriq())
        {
            assert!(
                analysis.primary_status.is_haram(),
                "Date {:?} has Haram reason but status is {:?}",
                date,
                analysis.primary_status
            );
            assert_eq!(analysis.reason_count(), 1);
        }
        days += 7;
    }
}

#[test]
fn ramadhan_is_wajib() {
    let base = ymd(1900, 1, 1);
    let mut days: i64 = 0;
    while days < 73000 {
        let date = base.checked_add_days(days).unwrap();
        let analysis = analyze_date(date);
        if analysis.has_reason(&FastingType::Ramadhan()) {
            assert!(
                analysis.primary_status.is_wajib(),
                "Date {:?} is Ramadhan but not Wajib: {:?}",
                date,
                analysis.primary_status
            );
        }
        if analysis.hijri_month == 9 {
            assert!(analysis.primary_status.is_wajib());
        }
        days += 7;
    }
}

#[test]
fn trace_constructor() {
    let t = RuleTrace::new(TraceCode::Arafah, None);
    assert_eq!(t.code, TraceCode::Arafah);
    assert!(t.details.is_none());
    let t = RuleTrace::new(TraceCode::Debug, Some("note".to_string()));
    assert_eq!(t.code, TraceCode::Debug);
    assert_eq!(t.details.as_deref(), Some("note"));
    assert_eq!(t.text(), "Debug: note");
    assert_eq!(RuleTrace::new(TraceCode::FridaySingledOut, None).text(), "FridaySingledOut");
    let copy = t.clone();
    assert_eq!(copy.code, TraceCode::Debug);
    assert_eq!(copy.details.as_deref(), Some("note"));
}
