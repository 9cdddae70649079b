//! Re-exports for convenience.

pub use crate::calendar::{to_hijri, ShaumError};
pub use crate::context::{MoonProvider, RuleContext};
pub use crate::extension::ShaumDateExt;
pub use crate::location::GeoCoordinate;
pub use crate::rules::{analyze, analyze_date, check};
pub use crate::types::{
    DaudStrategy, FastingAnalysis, FastingStatus, FastingType, Madhab, TraceCode,
};
