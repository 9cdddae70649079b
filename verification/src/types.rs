//! The values that an analysis is made of: statuses, reasons, trace entries
//! and the analysis itself.

use crate::calendar::{get_hijri_month_name, hijri_month_name, HijriDate};
use crate::text::{decimal_string, join, lemma_join_push, signed_decimal};
use crate::civil::DateTime;
use smallvec::SmallVec;
use vstd::prelude::*;
use vstd::string::StringExecFns;

verus! {

/// Fasting status (Hukum), in ascending priority:
/// Mubah < Makruh < Sunnah < SunnahMuakkadah < Wajib < Haram.
#[derive(Debug, Clone, Copy, PartialEq, Eq, Structural, Hash, PartialOrd, Ord)]
pub enum FastingStatus {
    Mubah,
    Makruh,
    Sunnah,
    SunnahMuakkadah,
    Wajib,
    Haram,
}

impl FastingStatus {
    /// The priority of the status: the one table that decides between two
    /// statuses.
    pub open spec fn spec_rank(self) -> int {
        match self {
            FastingStatus::Mubah => 0,
            FastingStatus::Makruh => 1,
            FastingStatus::Sunnah => 2,
            FastingStatus::SunnahMuakkadah => 3,
            FastingStatus::Wajib => 4,
            FastingStatus::Haram => 5,
        }
    }

    /// The status of higher priority.
    pub open spec fn spec_max(self, other: FastingStatus) -> FastingStatus {
        if other.spec_rank() > self.spec_rank() {
            other
        } else {
            self
        }
    }

    /// The priority of the status, from 0 for Mubah to 5 for Haram.
    pub fn rank(self) -> (r: u8)
        ensures
            r == self.spec_rank(),
    {
        match self {
            FastingStatus::Mubah => 0,
            FastingStatus::Makruh => 1,
            FastingStatus::Sunnah => 2,
            FastingStatus::SunnahMuakkadah => 3,
            FastingStatus::Wajib => 4,
            FastingStatus::Haram => 5,
        }
    }

    /// The status of higher priority; `self` where the two are equal.
    #[verifier::when_used_as_spec(spec_max)]
    pub fn max(self, other: FastingStatus) -> (r: FastingStatus)
        ensures
            r == self.spec_max(other),
    {
        if other.rank() > self.rank() {
            other
        } else {
            self
        }
    }

    pub fn is_haram(&self) -> (r: bool)
        ensures
            r == (*self == FastingStatus::Haram),
    {
        matches!(self, FastingStatus::Haram)
    }

    pub fn is_wajib(&self) -> (r: bool)
        ensures
            r == (*self == FastingStatus::Wajib),
    {
        matches!(self, FastingStatus::Wajib)
    }

    pub fn is_sunnah(&self) -> (r: bool)
        ensures
            r == (*self == FastingStatus::Sunnah || *self == FastingStatus::SunnahMuakkadah),
    {
        matches!(self, FastingStatus::Sunnah | FastingStatus::SunnahMuakkadah)
    }

    pub fn is_makruh(&self) -> (r: bool)
        ensures
            r == (*self == FastingStatus::Makruh),
    {
        matches!(self, FastingStatus::Makruh)
    }

    pub fn is_mubah(&self) -> (r: bool)
        ensures
            r == (*self == FastingStatus::Mubah),
    {
        matches!(self, FastingStatus::Mubah)
    }

    /// The status with its gloss, as shown to a reader.
    pub fn label(&self) -> (r: &'static str)
        ensures
            r@ == self.spec_label(),
    {
        match self {
            FastingStatus::Mubah => "Mubah (Permissible)",
            FastingStatus::Makruh => "Makruh (Disliked)",
            FastingStatus::Sunnah => "Sunnah (Recommended)",
            FastingStatus::SunnahMuakkadah => "Sunnah Muakkadah (Highly Recommended)",
            FastingStatus::Wajib => "Wajib (Obligatory)",
            FastingStatus::Haram => "Haram (Forbidden)",
        }
    }

    /// The text of [`FastingStatus::label`].
    pub open spec fn spec_label(self) -> Seq<char> {
        match self {
            FastingStatus::Mubah => "Mubah (Permissible)"@,
            FastingStatus::Makruh => "Makruh (Disliked)"@,
            FastingStatus::Sunnah => "Sunnah (Recommended)"@,
            FastingStatus::SunnahMuakkadah => "Sunnah Muakkadah (Highly Recommended)"@,
            FastingStatus::Wajib => "Wajib (Obligatory)"@,
            FastingStatus::Haram => "Haram (Forbidden)"@,
        }
    }

    /// The bare name of the status.
    pub fn name(&self) -> (r: &'static str)
        ensures
            r@ == self.spec_name(),
    {
        match self {
            FastingStatus::Haram => "Haram",
            FastingStatus::Wajib => "Wajib",
            FastingStatus::SunnahMuakkadah => "Sunnah Muakkadah",
            FastingStatus::Sunnah => "Sunnah",
            FastingStatus::Makruh => "Makruh",
            FastingStatus::Mubah => "Mubah",
        }
    }

    /// The text of [`FastingStatus::name`].
    pub open spec fn spec_name(self) -> Seq<char> {
        match self {
            FastingStatus::Haram => "Haram"@,
            FastingStatus::Wajib => "Wajib"@,
            FastingStatus::SunnahMuakkadah => "Sunnah Muakkadah"@,
            FastingStatus::Sunnah => "Sunnah"@,
            FastingStatus::Makruh => "Makruh"@,
            FastingStatus::Mubah => "Mubah"@,
        }
    }
}

/// Taking the higher of two statuses does not depend on their order, nor on
/// how three of them are grouped, and never lowers a status.
pub proof fn lemma_max_is_a_join(a: FastingStatus, b: FastingStatus, c: FastingStatus)
    ensures
        a.spec_max(b) == b.spec_max(a),
        a.spec_max(b).spec_max(c) == a.spec_max(b.spec_max(c)),
        a.spec_max(b).spec_rank() >= a.spec_rank(),
        a.spec_max(b).spec_rank() >= b.spec_rank(),
        a.spec_max(a) == a,
{
}

/// Whether `name` is one of the three reasons that forbid a fast.
pub open spec fn is_haram_name(name: Seq<char>) -> bool {
    name == "EidAlFitr"@ || name == "EidAlAdha"@ || name == "Tashriq"@
}

/// Whether `name` is one of the recommended fasts.
pub open spec fn is_sunnah_name(name: Seq<char>) -> bool {
    name == "Arafah"@ || name == "Tasua"@ || name == "Ashura"@ || name == "AyyamulBidh"@ || name
        == "Monday"@ || name == "Thursday"@ || name == "Shawwal"@ || name == "Daud"@
}

/// The reason for a status, identified by its name. The names that the
/// engine itself gives have constructors here; a custom rule may use any
/// other.
#[derive(Debug, Hash)]
pub struct FastingType {
    name: String,
}

impl View for FastingType {
    type V = Seq<char>;

    /// The name of the reason.
    closed spec fn view(&self) -> Seq<char> {
        self.name@
    }
}

impl Clone for FastingType {
    fn clone(&self) -> (r: FastingType)
        ensures
            r@ == self@,
    {
        FastingType { name: self.name.clone() }
    }
}

impl PartialEq for FastingType {
    fn eq(&self, other: &FastingType) -> (r: bool) {
        self.name == other.name
    }
}

impl Eq for FastingType {

}

impl vstd::std_specs::cmp::PartialEqSpecImpl for FastingType {
    open spec fn obeys_eq_spec() -> bool {
        true
    }

    open spec fn eq_spec(&self, other: &FastingType) -> bool {
        self@ == other@
    }
}

impl FastingType {
    /// A reason with the given name.
    pub fn new(name: &str) -> (r: FastingType)
        ensures
            r@ == name@,
    {
        FastingType { name: String::from_str(name) }
    }

    /// A reason of a custom rule, with the given name.
    pub fn custom(name: &str) -> (r: FastingType)
        ensures
            r@ == name@,
    {
        FastingType { name: String::from_str(name) }
    }

    /// The name of the reason.
    pub fn as_str(&self) -> (r: &str)
        ensures
            r@ == self@,
    {
        self.name.as_str()
    }

    #[allow(non_snake_case)]
    pub fn Ramadhan() -> (r: FastingType)
        ensures
            r@ == "Ramadhan"@,
    {
        FastingType::new("Ramadhan")
    }

    #[allow(non_snake_case)]
    pub fn Arafah() -> (r: FastingType)
        ensures
            r@ == "Arafah"@,
    {
        FastingType::new("Arafah")
    }

    #[allow(non_snake_case)]
    pub fn Tasua() -> (r: FastingType)
        ensures
            r@ == "Tasua"@,
    {
        FastingType::new("Tasua")
    }

    #[allow(non_snake_case)]
    pub fn Ashura() -> (r: FastingType)
        ensures
            r@ == "Ashura"@,
    {
        FastingType::new("Ashura")
    }

    #[allow(non_snake_case)]
    pub fn AyyamulBidh() -> (r: FastingType)
        ensures
            r@ == "AyyamulBidh"@,
    {
        FastingType::new("AyyamulBidh")
    }

    #[allow(non_snake_case)]
    pub fn Monday() -> (r: FastingType)
        ensures
            r@ == "Monday"@,
    {
        FastingType::new("Monday")
    }

    #[allow(non_snake_case)]
    pub fn Thursday() -> (r: FastingType)
        ensures
            r@ == "Thursday"@,
    {
        FastingType::new("Thursday")
    }

    #[allow(non_snake_case)]
    pub fn Shawwal() -> (r: FastingType)
        ensures
            r@ == "Shawwal"@,
    {
        FastingType::new("Shawwal")
    }

    #[allow(non_snake_case)]
    pub fn Daud() -> (r: FastingType)
        ensures
            r@ == "Daud"@,
    {
        FastingType::new("Daud")
    }

    #[allow(non_snake_case)]
    pub fn EidAlFitr() -> (r: FastingType)
        ensures
            r@ == "EidAlFitr"@,
    {
        FastingType::new("EidAlFitr")
    }

    #[allow(non_snake_case)]
    pub fn EidAlAdha() -> (r: FastingType)
        ensures
            r@ == "EidAlAdha"@,
    {
        FastingType::new("EidAlAdha")
    }

    #[allow(non_snake_case)]
    pub fn Tashriq() -> (r: FastingType)
        ensures
            r@ == "Tashriq"@,
    {
        FastingType::new("Tashriq")
    }

    #[allow(non_snake_case)]
    pub fn FridayExclusive() -> (r: FastingType)
        ensures
            r@ == "FridayExclusive"@,
    {
        FastingType::new("FridayExclusive")
    }

    #[allow(non_snake_case)]
    pub fn SaturdayExclusive() -> (r: FastingType)
        ensures
            r@ == "SaturdayExclusive"@,
    {
        FastingType::new("SaturdayExclusive")
    }

    /// Whether this is one of the three reasons that forbid a fast.
    pub fn is_haram_type(&self) -> (r: bool)
        ensures
            r == is_haram_name(self@),
    {
        *self == FastingType::EidAlFitr() || *self == FastingType::EidAlAdha() || *self
            == FastingType::Tashriq()
    }

    /// Whether this is one of the recommended fasts.
    pub fn is_sunnah_type(&self) -> (r: bool)
        ensures
            r == is_sunnah_name(self@),
    {
        *self == FastingType::Arafah() || *self == FastingType::Tasua() || *self
            == FastingType::Ashura() || *self == FastingType::AyyamulBidh() || *self
            == FastingType::Monday() || *self == FastingType::Thursday() || *self
            == FastingType::Shawwal() || *self == FastingType::Daud()
    }
}

/// Sunni schools of jurisprudence.
#[derive(Debug, Clone, Copy, PartialEq, Eq, Structural, Hash)]
pub enum Madhab {
    Shafi,
    Hanafi,
    Maliki,
    Hanbali,
}

impl Default for Madhab {
    fn default() -> (r: Madhab)
        ensures
            r == Madhab::Shafi,
    {
        Madhab::Shafi
    }
}

/// Strategy for Daud fasting on Haram days.
#[derive(Debug, Clone, Copy, PartialEq, Eq, Structural, Hash)]
pub enum DaudStrategy {
    /// Skip turn, lose the fast.
    Skip,
    /// Postpone to next permissible day.
    Postpone,
}

impl Default for DaudStrategy {
    fn default() -> (r: DaudStrategy)
        ensures
            r == DaudStrategy::Skip,
    {
        DaudStrategy::Skip
    }
}

/// Machine-readable codes of the trace entries.
#[derive(Debug, Clone, Copy, PartialEq, Eq, Structural, Hash)]
pub enum TraceCode {
    EidAlFitr,
    EidAlAdha,
    Tashriq,
    FridaySingledOut,
    SaturdaySingledOut,
    Ramadhan,
    Arafah,
    Tasua,
    Ashura,
    AyyamulBidh,
    Monday,
    Thursday,
    Shawwal,
    Daud,
    Custom,
    Debug,
}

impl TraceCode {
    /// The text of [`TraceCode::name`].
    pub open spec fn spec_name(self) -> Seq<char> {
        match self {
            TraceCode::EidAlFitr => "EidAlFitr"@,
            TraceCode::EidAlAdha => "EidAlAdha"@,
            TraceCode::Tashriq => "Tashriq"@,
            TraceCode::FridaySingledOut => "FridaySingledOut"@,
            TraceCode::SaturdaySingledOut => "SaturdaySingledOut"@,
            TraceCode::Ramadhan => "Ramadhan"@,
            TraceCode::Arafah => "Arafah"@,
            TraceCode::Tasua => "Tasua"@,
            TraceCode::Ashura => "Ashura"@,
            TraceCode::AyyamulBidh => "AyyamulBidh"@,
            TraceCode::Monday => "Monday"@,
            TraceCode::Thursday => "Thursday"@,
            TraceCode::Shawwal => "Shawwal"@,
            TraceCode::Daud => "Daud"@,
            TraceCode::Custom => "Custom"@,
            TraceCode::Debug => "Debug"@,
        }
    }

    /// The code as text: the name of the variant.
    pub fn name(&self) -> (r: &'static str)
        ensures
            r@ == self.spec_name(),
    {
        match self {
            TraceCode::EidAlFitr => "EidAlFitr",
            TraceCode::EidAlAdha => "EidAlAdha",
            TraceCode::Tashriq => "Tashriq",
            TraceCode::FridaySingledOut => "FridaySingledOut",
            TraceCode::SaturdaySingledOut => "SaturdaySingledOut",
            TraceCode::Ramadhan => "Ramadhan",
            TraceCode::Arafah => "Arafah",
            TraceCode::Tasua => "Tasua",
            TraceCode::Ashura => "Ashura",
            TraceCode::AyyamulBidh => "AyyamulBidh",
            TraceCode::Monday => "Monday",
            TraceCode::Thursday => "Thursday",
            TraceCode::Shawwal => "Shawwal",
            TraceCode::Daud => "Daud",
            TraceCode::Custom => "Custom",
            TraceCode::Debug => "Debug",
        }
    }
}

/// What a trace entry says: its code and, if it has one, its detail text.
pub struct TraceView {
    pub code: TraceCode,
    pub details: Option<Seq<char>>,
}

/// One step of an evaluation, recorded for the explanation.
#[derive(Debug)]
pub struct RuleTrace {
    pub code: TraceCode,
    pub details: Option<String>,
}

impl View for RuleTrace {
    type V = TraceView;

    open spec fn view(&self) -> TraceView {
        TraceView {
            code: self.code,
            details: match self.details {
                Some(d) => Some(d@),
                None => None,
            },
        }
    }
}

impl Clone for RuleTrace {
    fn clone(&self) -> (r: RuleTrace)
        ensures
            r@ == self@,
    {
        let details = match &self.details {
            Some(d) => Some(d.clone()),
            None => None,
        };
        RuleTrace { code: self.code, details }
    }
}

impl RuleTrace {
    pub fn new(code: TraceCode, details: Option<String>) -> (r: RuleTrace)
        ensures
            r.code == code,
            r.details == details,
    {
        RuleTrace { code, details }
    }
}

/// The reasons of an analysis, in the order in which they were found.
///
/// The list is a `smallvec::SmallVec`, which Verus does not look into. What
/// it holds is [`reason_items`]; the functions `reasons_new`, `reasons_push`,
/// `reasons_len` and `reasons_get` say what `SmallVec`'s `new`, `push`, `len`
/// and indexing do, and are taken on trust.
#[verifier::external_body]
#[derive(Debug)]
pub struct ReasonList {
    items: SmallVec<[FastingType; 2]>,
}

/// The reasons that a list holds, first found first.
pub uninterp spec fn reason_items(list: ReasonList) -> Seq<FastingType>;

/// `smallvec::SmallVec::new`: a list that holds nothing.
#[verifier::external_body]
fn reasons_new() -> (r: ReasonList)
    ensures
        reason_items(r) == Seq::<FastingType>::empty(),
{
    ReasonList { items: SmallVec::new() }
}

/// `smallvec::SmallVec::push`: the list with `item` after what it held.
#[verifier::external_body]
fn reasons_push(list: &mut ReasonList, item: FastingType)
    ensures
        reason_items(*final(list)) == reason_items(*old(list)).push(item),
{
    list.items.push(item)
}

/// `smallvec::SmallVec::len`: how many items the list holds.
#[verifier::external_body]
fn reasons_len(list: &ReasonList) -> (r: usize)
    ensures
        r == reason_items(*list).len(),
{
    list.items.len()
}

/// Indexing a `smallvec::SmallVec` (through its slice): the item at
/// position `i`, which must be one of the list.
#[verifier::external_body]
fn reasons_get(list: &ReasonList, i: usize) -> (r: &FastingType)
    requires
        i < reason_items(*list).len(),
    ensures
        *r == reason_items(*list)[i as int],
{
    &list.items[i]
}

impl View for ReasonList {
    type V = Seq<Seq<char>>;

    /// The names of the reasons, first found first.
    open spec fn view(&self) -> Seq<Seq<char>> {
        reason_items(*self).map_values(|t: FastingType| t@)
    }
}

impl Clone for ReasonList {
    fn clone(&self) -> (r: ReasonList)
        ensures
            r@ == self@,
    {
        let n = self.len();
        let mut copy = ReasonList::new();
        let mut i: usize = 0;
        while i < n
            invariant
                n == self@.len(),
                i <= n,
                copy@ == self@.take(i as int),
            decreases n - i,
        {
            copy.push(self.get(i).clone());
            assert(self@.take(i as int).push(self@[i as int]) == self@.take(i + 1));
            i = i + 1;
        }
        assert(self@.take(n as int) == self@);
        copy
    }
}

impl ReasonList {
    /// A list without reasons.
    pub fn new() -> (r: ReasonList)
        ensures
            r@ == Seq::<Seq<char>>::empty(),
    {
        reasons_new()
    }

    /// Adds `item` at the end.
    pub fn push(&mut self, item: FastingType)
        ensures
            final(self)@ == old(self)@.push(item@),
    {
        reasons_push(self, item);
    }

    /// The number of reasons.
    pub fn len(&self) -> (r: usize)
        ensures
            r == self@.len(),
    {
        reasons_len(self)
    }

    /// The reason at position `i`.
    pub fn get(&self, i: usize) -> (r: &FastingType)
        requires
            i < self@.len(),
        ensures
            r@ == self@[i as int],
    {
        reasons_get(self, i)
    }

    /// Whether a reason with the name of `item` is in the list.
    pub fn contains(&self, item: &FastingType) -> (r: bool)
        ensures
            r == self@.contains(item@),
    {
        let n = self.len();
        let mut i: usize = 0;
        while i < n
            invariant
                n == self@.len(),
                i <= n,
                forall|j: int| 0 <= j < i ==> self@[j] != item@,
            decreases n - i,
        {
            if self.get(i) == item {
                return true;
            }
            i = i + 1;
        }
        false
    }
}

/// The trace of an analysis, in the order of evaluation.
///
/// The list is a `smallvec::SmallVec`, which Verus does not look into. What
/// it holds is [`trace_items`]; the functions `traces_new`, `traces_push`,
/// `traces_len` and `traces_get` say what `SmallVec`'s `new`, `push`, `len`
/// and indexing do, and are taken on trust.
#[verifier::external_body]
#[derive(Debug)]
pub struct TraceList {
    items: SmallVec<[RuleTrace; 2]>,
}

/// The entries that a trace holds, first recorded first.
pub uninterp spec fn trace_items(list: TraceList) -> Seq<RuleTrace>;

/// `smallvec::SmallVec::new`: a trace that holds nothing.
#[verifier::external_body]
fn traces_new() -> (r: TraceList)
    ensures
        trace_items(r) == Seq::<RuleTrace>::empty(),
{
    TraceList { items: SmallVec::new() }
}

/// `smallvec::SmallVec::push`: the trace with `item` after what it held.
#[verifier::external_body]
fn traces_push(list: &mut TraceList, item: RuleTrace)
    ensures
        trace_items(*final(list)) == trace_items(*old(list)).push(item),
{
    list.items.push(item)
}

/// `smallvec::SmallVec::len`: how many entries the trace holds.
#[verifier::external_body]
fn traces_len(list: &TraceList) -> (r: usize)
    ensures
        r == trace_items(*list).len(),
{
    list.items.len()
}

/// Indexing a `smallvec::SmallVec` (through its slice): the entry at
/// position `i`, which must be one of the trace.
#[verifier::external_body]
fn traces_get(list: &TraceList, i: usize) -> (r: &RuleTrace)
    requires
        i < trace_items(*list).len(),
    ensures
        *r == trace_items(*list)[i as int],
{
    &list.items[i]
}

impl View for TraceList {
    type V = Seq<TraceView>;

    /// What the entries say, first recorded first.
    open spec fn view(&self) -> Seq<TraceView> {
        trace_items(*self).map_values(|t: RuleTrace| t@)
    }
}

impl Clone for TraceList {
    fn clone(&self) -> (r: TraceList)
        ensures
            r@ == self@,
    {
        let n = self.len();
        let mut copy = TraceList::new();
        let mut i: usize = 0;
        while i < n
            invariant
                n == self@.len(),
                i <= n,
                copy@ == self@.take(i as int),
            decreases n - i,
        {
            copy.push(self.get(i).clone());
            assert(self@.take(i as int).push(self@[i as int]) == self@.take(i + 1));
            i = i + 1;
        }
        assert(self@.take(n as int) == self@);
        copy
    }
}

impl TraceList {
    /// A trace without entries.
    pub fn new() -> (r: TraceList)
        ensures
            r@ == Seq::<TraceView>::empty(),
    {
        traces_new()
    }

    /// Adds `item` at the end.
    pub fn push(&mut self, item: RuleTrace)
        ensures
            final(self)@ == old(self)@.push(item@),
    {
        traces_push(self, item);
    }

    /// The number of entries.
    pub fn len(&self) -> (r: usize)
        ensures
            r == self@.len(),
    {
        traces_len(self)
    }

    /// The entry at position `i`.
    pub fn get(&self, i: usize) -> (r: &RuleTrace)
        requires
            i < self@.len(),
        ensures
            r@ == self@[i as int],
    {
        traces_get(self, i)
    }
}

/// What an analysis says.
pub struct AnalysisView {
    /// The instant that was asked about.
    pub date: DateTime,
    /// The resolved status.
    pub status: FastingStatus,
    /// The Hijri date of the day.
    pub hijri: HijriDate,
    /// The names of the reasons, first found first.
    pub reasons: Seq<Seq<char>>,
    /// The trace, in the order of evaluation.
    pub traces: Seq<TraceView>,
}

/// Renders an analysis in a language: the names of the months, the statuses
/// and the reasons. What it renders has no part in the analysis.
pub trait Localizer {
    fn format_description(&self, analysis: &FastingAnalysis) -> (r: String)
    ;
}

/// Fasting analysis result.
#[derive(Debug)]
pub struct FastingAnalysis {
    pub date: DateTime,
    pub primary_status: FastingStatus,
    pub hijri_year: usize,
    pub hijri_month: usize,
    pub hijri_day: usize,
    pub reasons: ReasonList,
    pub traces: TraceList,
}

impl View for FastingAnalysis {
    type V = AnalysisView;

    open spec fn view(&self) -> AnalysisView {
        AnalysisView {
            date: self.date,
            status: self.primary_status,
            hijri: HijriDate {
                year: self.hijri_year,
                month: self.hijri_month,
                day: self.hijri_day,
            },
            reasons: self.reasons@,
            traces: self.traces@,
        }
    }
}

impl Clone for FastingAnalysis {
    fn clone(&self) -> (r: FastingAnalysis)
        ensures
            r@ == self@,
    {
        FastingAnalysis {
            date: self.date,
            primary_status: self.primary_status,
            hijri_year: self.hijri_year,
            hijri_month: self.hijri_month,
            hijri_day: self.hijri_day,
            reasons: self.reasons.clone(),
            traces: self.traces.clone(),
        }
    }
}

impl FastingAnalysis {
    /// An analysis without a trace.
    pub fn new(
        date: DateTime,
        status: FastingStatus,
        types: ReasonList,
        hijri: (usize, usize, usize),
    ) -> (r: FastingAnalysis)
        ensures
            r@ == (AnalysisView {
                date,
                status,
                hijri: HijriDate { year: hijri.0, month: hijri.1, day: hijri.2 },
                reasons: types@,
                traces: Seq::<TraceView>::empty(),
            }),
    {
        FastingAnalysis {
            date,
            primary_status: status,
            reasons: types,
            hijri_year: hijri.0,
            hijri_month: hijri.1,
            hijri_day: hijri.2,
            traces: TraceList::new(),
        }
    }

    /// An analysis with its trace.
    pub fn with_traces(
        date: DateTime,
        status: FastingStatus,
        types: ReasonList,
        hijri: (usize, usize, usize),
        traces: TraceList,
    ) -> (r: FastingAnalysis)
        ensures
            r@ == (AnalysisView {
                date,
                status,
                hijri: HijriDate { year: hijri.0, month: hijri.1, day: hijri.2 },
                reasons: types@,
                traces: traces@,
            }),
    {
        FastingAnalysis {
            date,
            primary_status: status,
            reasons: types,
            hijri_year: hijri.0,
            hijri_month: hijri.1,
            hijri_day: hijri.2,
            traces,
        }
    }

    /// The fasting types, first found first.
    pub fn reasons(&self) -> (r: Vec<FastingType>)
        ensures
            r@.map_values(|t: FastingType| t@) == self@.reasons,
    {
        let n = self.reasons.len();
        let mut out: Vec<FastingType> = Vec::new();
        let mut i: usize = 0;
        while i < n
            invariant
                n == self.reasons@.len(),
                i <= n,
                out@.map_values(|t: FastingType| t@) == self.reasons@.take(i as int),
            decreases n - i,
        {
            let ghost before = out@;
            out.push(self.reasons.get(i).clone());
            assert(out@.map_values(|t: FastingType| t@) == before.map_values(
                |t: FastingType| t@,
            ).push(self.reasons@[i as int]));
            assert(self.reasons@.take(i as int).push(self.reasons@[i as int])
                == self.reasons@.take(i + 1));
            i = i + 1;
        }
        assert(self.reasons@.take(n as int) == self.reasons@);
        out
    }

    /// Checks if `ftype` is among the reasons.
    pub fn has_reason(&self, ftype: &FastingType) -> (r: bool)
        ensures
            r == self@.reasons.contains(ftype@),
    {
        self.reasons.contains(ftype)
    }

    /// Returns reason count.
    pub fn reason_count(&self) -> (r: usize)
        ensures
            r == self@.reasons.len(),
    {
        self.reasons.len()
    }

    pub fn is_ramadhan(&self) -> (r: bool)
        ensures
            r == self@.reasons.contains("Ramadhan"@),
    {
        self.has_reason(&FastingType::Ramadhan())
    }

    pub fn is_white_day(&self) -> (r: bool)
        ensures
            r == self@.reasons.contains("AyyamulBidh"@),
    {
        self.has_reason(&FastingType::AyyamulBidh())
    }

    pub fn is_eid(&self) -> (r: bool)
        ensures
            r == (self@.reasons.contains("EidAlFitr"@) || self@.reasons.contains("EidAlAdha"@)),
    {
        self.has_reason(&FastingType::EidAlFitr()) || self.has_reason(&FastingType::EidAlAdha())
    }

    pub fn is_tashriq(&self) -> (r: bool)
        ensures
            r == self@.reasons.contains("Tashriq"@),
    {
        self.has_reason(&FastingType::Tashriq())
    }

    pub fn is_arafah(&self) -> (r: bool)
        ensures
            r == self@.reasons.contains("Arafah"@),
    {
        self.has_reason(&FastingType::Arafah())
    }

    pub fn is_ashura(&self) -> (r: bool)
        ensures
            r == self@.reasons.contains("Ashura"@),
    {
        self.has_reason(&FastingType::Ashura())
    }

    /// The trace entries, in the order of evaluation.
    pub fn traces(&self) -> (r: Vec<RuleTrace>)
        ensures
            r@.map_values(|t: RuleTrace| t@) == self@.traces,
    {
        let n = self.traces.len();
        let mut out: Vec<RuleTrace> = Vec::new();
        let mut i: usize = 0;
        while i < n
            invariant
                n == self.traces@.len(),
                i <= n,
                out@.map_values(|t: RuleTrace| t@) == self.traces@.take(i as int),
            decreases n - i,
        {
            let ghost before = out@;
            out.push(self.traces.get(i).clone());
            assert(out@.map_values(|t: RuleTrace| t@) == before.map_values(|t: RuleTrace| t@).push(
                self.traces@[i as int],
            ));
            assert(self.traces@.take(i as int).push(self.traces@[i as int]) == self.traces@.take(
                i + 1,
            ));
            i = i + 1;
        }
        assert(self.traces@.take(n as int) == self.traces@);
        out
    }

    /// Localized description: what the localizer renders of this analysis.
    pub fn description<L: Localizer>(&self, localizer: &L) -> (r: String)
        ensures
            call_ensures(L::format_description, (localizer, self), r),
    {
        let render = L::format_description;
        render(localizer, self)
    }

    /// Adds an entry at the end of the trace.
    pub fn add_trace(&mut self, trace: RuleTrace)
        ensures
            final(self)@ == (AnalysisView {
                traces: old(self)@.traces.push(trace@),
                ..old(self)@
            }),
    {
        self.traces.push(trace);
    }
}

/// A trace entry as text: the code, then a colon and the detail where there
/// is one.
pub open spec fn trace_text(entry: TraceView) -> Seq<char> {
    match entry.details {
        Some(details) => entry.code.spec_name() + ": "@ + details,
        None => entry.code.spec_name(),
    }
}

/// The explanation of an analysis without a trace: the Hijri date and the
/// status, then the reasons if there are any.
pub open spec fn summary(a: AnalysisView) -> Seq<char> {
    let head = signed_decimal(a.hijri.day as int) + " "@ + hijri_month_name(a.hijri.month as int)
        + " "@ + signed_decimal(a.hijri.year as int) + " - "@ + a.status.spec_name();
    if a.reasons.len() == 0 {
        head
    } else {
        head + " because: "@ + join(a.reasons, ", "@)
    }
}

/// The explanation of an analysis: its trace entries, separated by
/// semicolons; the summary where the trace is empty.
pub open spec fn explanation(a: AnalysisView) -> Seq<char> {
    if a.traces.len() == 0 {
        summary(a)
    } else {
        join(a.traces.map_values(|t: TraceView| trace_text(t)), "; "@)
    }
}

impl RuleTrace {
    /// The entry as text: the code, then a colon and the detail where there
    /// is one.
    pub fn text(&self) -> (r: String)
        ensures
            r@ == trace_text(self@),
    {
        let mut out = String::from_str(self.code.name());
        if let Some(details) = &self.details {
            out.append(": ");
            out.append(details.as_str());
        }
        out
    }
}

impl FastingAnalysis {
    /// Returns human-readable explanation.
    pub fn explain(&self) -> (r: String)
        ensures
            r@ == explanation(self@),
    {
        let n = self.traces.len();
        if n == 0 {
            return self.generate_explanation();
        }
        let ghost texts = self.traces@.map_values(|t: TraceView| trace_text(t));
        let mut out = String::new();
        let mut i: usize = 0;
        assert(texts.take(0) == Seq::<Seq<char>>::empty());
        while i < n
            invariant
                n == self.traces@.len(),
                i <= n,
                texts == self.traces@.map_values(|t: TraceView| trace_text(t)),
                out@ == join(texts.take(i as int), "; "@),
            decreases n - i,
        {
            if i > 0 {
                out.append("; ");
            }
            out.append(self.traces.get(i).text().as_str());
            proof {
                lemma_join_push(texts.take(i as int), "; "@, texts[i as int]);
                assert(texts.take(i as int).push(texts[i as int]) == texts.take(i + 1));
            }
            i = i + 1;
        }
        assert(texts.take(n as int) == texts);
        out
    }

    /// The explanation of an analysis without a trace.
    pub fn generate_explanation(&self) -> (r: String)
        ensures
            r@ == summary(self@),
    {
        let mut out = decimal_string(self.hijri_day as i128);
        out.append(" ");
        out.append(get_hijri_month_name(self.hijri_month));
        out.append(" ");
        out.append(decimal_string(self.hijri_year as i128).as_str());
        out.append(" - ");
        out.append(self.primary_status.name());
        let n = self.reasons.len();
        if n == 0 {
            return out;
        }
        out.append(" because: ");
        let ghost head = out@;
        let ghost names = self.reasons@;
        let mut i: usize = 0;
        assert(names.take(0) == Seq::<Seq<char>>::empty());
        while i < n
            invariant
                n == self.reasons@.len(),
                i <= n,
                names == self.reasons@,
                out@ == head + join(names.take(i as int), ", "@),
            decreases n - i,
        {
            if i > 0 {
                out.append(", ");
            }
            out.append(self.reasons.get(i).as_str());
            proof {
                lemma_join_push(names.take(i as int), ", "@, names[i as int]);
                assert(names.take(i as int).push(names[i as int]) == names.take(i + 1));
            }
            i = i + 1;
        }
        assert(names.take(n as int) == names);
        out
    }
}

} // verus!
