//! # Shaum - Islamic Fasting Rules Engine
//!
//! Determines fasting status (Wajib, Sunnah, Makruh, Haram) for any date,
//! finds the times that bound a fast from the altitude of the sun, and
//! produces the alternate-day Daud schedule.
//!
//! ## Quick Start
//!
//! ```rust
//! use shaum::prelude::*;
//! use shaum::Date;
//!
//! let date = Date::from_ymd_opt(2024, 3, 11).unwrap();
//!
//! // Methods of the date
//! if date.is_wajib() { println!("Ramadhan!"); }
//!
//! // Full analysis
//! let analysis = analyze_date(date);
//! println!("{}", analysis.explain());
//! ```
//!
//! ## Status Priority
//!
//! Haram > Wajib > SunnahMuakkadah > Sunnah > Makruh > Mubah
//!
//! ## Modules
//!
//! - [`civil`]: days and instants of the Gregorian calendar
//! - [`calendar`]: conversion to the Hijri calendar
//! - [`rules`]: the rule engine, with what is proved of it
//! - [`context`]: its configuration
//! - [`daud`]: the Daud schedule
//! - [`extension`]: analysis as methods of a date
//! - [`astronomy`]: the search for the crossings of the sun, and prayer times
//! - [`location`]: coordinates and place names
//! - [`types`]: statuses, reasons and the analysis

pub mod astronomy;
pub mod calendar;
pub mod civil;
pub mod constants;
pub mod context;
pub mod daud;
pub mod extension;
pub mod location;
pub mod prelude;
pub mod rules;
pub mod text;
pub mod types;

pub use calendar::{get_hijri_month_name, to_hijri, HijriDate, HijriMemo, ShaumError};
pub use civil::{Date, DateTime, Weekday};
pub use daud::{generate_daud_schedule, DaudIterator, DaudScheduleBuilder};
pub use extension::ShaumDateExt;
pub use location::{
    Address, DetailedLocationInfo, GeoCoordinate, LocationInfo, SimpleSunsetCalculator,
    SunsetCalculator,
};
pub use context::{
    FixedAdjustment, MoonProvider, NoAdjustment, RuleContext, RuleContextBuilder,
};
pub use rules::{
    analyze, analyze_date, can_check, check, consult, evaluate, resolve, CustomFastingRule,
};
pub use types::{
    DaudStrategy, FastingAnalysis, FastingStatus, FastingType, Localizer, Madhab, ReasonList,
    RuleTrace, TraceCode, TraceList,
};
