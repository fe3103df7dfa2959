//! The records the tracker stores: projects, clients, time entries, tags,
//! billing rates and report rows.
//!
//! Moments are held as `i64` stamps: seconds since 1970-01-01 00:00:00 of the
//! local wall clock (no zone). Money and hour figures that the store keeps as
//! floating-point numbers are held by their IEEE-754 bit patterns
//! (`f64::to_bits`), which the library carries but never computes with.

use vstd::prelude::*;
use crate::text::chars_of;

verus! {

/// Largest distance from the epoch, in seconds, that a stamp may have. Any
/// date the calendar library can represent lies well inside it, and two such
/// stamps can be subtracted without overflow.
pub open spec fn stamp_bound() -> int {
    0x1000_0000_0000
}

/// A stamp that lies within `stamp_bound()` of the epoch.
pub open spec fn stamp_ok(t: i64) -> bool {
    -stamp_bound() <= t <= stamp_bound()
}

/// What a billing rate applies to.
#[derive(Debug, Clone, Copy, PartialEq, Eq, Structural)]
pub enum RateType {
    Project,
    Client,
    Default,
}

/// The lowercase form of a string, as `str::to_lowercase` gives it.
pub uninterp spec fn lowercase(s: Seq<char>) -> Seq<char>;

/// Whether every character of `s` is ASCII.
pub open spec fn all_ascii(s: Seq<char>) -> bool {
    forall|i: int| 0 <= i < s.len() ==> (#[trigger] s[i]) < '\u{80}'
}

/// An ASCII letter `A` to `Z` as its lowercase letter; any other character
/// as it is.
pub open spec fn ascii_lower_char(c: char) -> char {
    if 'A' <= c && c <= 'Z' {
        ((c as u32) + 32) as char
    } else {
        c
    }
}

/// An ASCII letter `a` to `z` as its uppercase letter; any other character
/// as it is.
pub open spec fn ascii_upper_char(c: char) -> char {
    if 'a' <= c && c <= 'z' {
        ((c as u32) - 32) as char
    } else {
        c
    }
}

/// `s` with its ASCII letters lowercased.
pub open spec fn ascii_lowered(s: Seq<char>) -> Seq<char> {
    s.map_values(|c: char| ascii_lower_char(c))
}

/// `s` with its ASCII letters uppercased.
pub open spec fn ascii_raised(s: Seq<char>) -> Seq<char> {
    s.map_values(|c: char| ascii_upper_char(c))
}

/// `str::to_lowercase`: the Unicode lowercase form of `s`, named
/// `lowercase(s@)`. Of ASCII text the Unicode mapping takes `A` to `Z` to
/// `a` to `z` and keeps every other character, which is stated; what it does
/// to other characters is the Unicode tables' business and is not stated.
#[verifier::external_body]
pub(crate) fn to_lowercase(s: &str) -> (r: String)
    ensures
        r@ == lowercase(s@),
        all_ascii(s@) ==> r@ == ascii_lowered(s@),
{
    s.to_lowercase()
}

/// Whether the characters `a` and `b` are the same sequence.
pub fn same_text(a: &Vec<char>, b: &Vec<char>) -> (r: bool)
    ensures
        r == (a@ == b@),
{
    if a.len() != b.len() {
        return false;
    }
    let mut i: usize = 0;
    while i < a.len()
        invariant
            a@.len() == b@.len(),
            0 <= i <= a@.len(),
            forall|j: int| 0 <= j < i ==> a@[j] == b@[j],
        decreases a@.len() - i,
    {
        if a[i] != b[i] {
            return false;
        }
        i = i + 1;
    }
    assert(a@ =~= b@);
    true
}

/// The rate type a (lowercased) name stands for.
pub open spec fn rate_type_named(name: Seq<char>) -> Option<RateType> {
    if name == seq!['p', 'r', 'o', 'j', 'e', 'c', 't'] {
        Some(RateType::Project)
    } else if name == seq!['c', 'l', 'i', 'e', 'n', 't'] {
        Some(RateType::Client)
    } else if name == seq!['d', 'e', 'f', 'a', 'u', 'l', 't'] {
        Some(RateType::Default)
    } else {
        None
    }
}

/// The name under which a rate type is stored and shown.
pub open spec fn rate_type_text(t: RateType) -> Seq<char> {
    match t {
        RateType::Project => seq!['p', 'r', 'o', 'j', 'e', 'c', 't'],
        RateType::Client => seq!['c', 'l', 'i', 'e', 'n', 't'],
        RateType::Default => seq!['d', 'e', 'f', 'a', 'u', 'l', 't'],
    }
}

impl RateType {
    /// Reads a rate type from its name, ignoring case.
    pub fn from_str(s: &str) -> (r: Option<RateType>)
        ensures
            r == rate_type_named(lowercase(s@)),
            all_ascii(s@) ==> r == rate_type_named(ascii_lowered(s@)),
    {
        let lower = to_lowercase(s);
        RateType::from_lowercase(lower.as_str())
    }

    /// Reads a rate type from its name already in lowercase.
    pub fn from_lowercase(lower: &str) -> (r: Option<RateType>)
        ensures
            r == rate_type_named(lower@),
    {
        let l = chars_of(lower);
        let mut project: Vec<char> = Vec::new();
        crate::text::push_text(&mut project, "project");
        let mut client: Vec<char> = Vec::new();
        crate::text::push_text(&mut client, "client");
        let mut default: Vec<char> = Vec::new();
        crate::text::push_text(&mut default, "default");
        proof {
            reveal_strlit("project");
            reveal_strlit("client");
            reveal_strlit("default");
            assert(project@ =~= seq!['p', 'r', 'o', 'j', 'e', 'c', 't']);
            assert(client@ =~= seq!['c', 'l', 'i', 'e', 'n', 't']);
            assert(default@ =~= seq!['d', 'e', 'f', 'a', 'u', 'l', 't']);
        }
        if same_text(&l, &project) {
            Some(RateType::Project)
        } else if same_text(&l, &client) {
            Some(RateType::Client)
        } else if same_text(&l, &default) {
            Some(RateType::Default)
        } else {
            None
        }
    }

    /// The stored name of the rate type (what `Display` prints).
    pub fn as_text(&self) -> (s: &'static str)
        ensures
            s@ == rate_type_text(*self),
    {
        proof {
            reveal_strlit("project");
            reveal_strlit("client");
            reveal_strlit("default");
        }
        match self {
            RateType::Project => "project",
            RateType::Client => "client",
            RateType::Default => "default",
        }
    }
}

/// A rate type's name reads back as that rate type, and so does the name
/// written in capitals: the name is ASCII, and lowercasing it, or its
/// uppercase form, gives the name again.
pub proof fn law_rate_type_names(t: RateType)
    ensures
        all_ascii(rate_type_text(t)),
        rate_type_named(ascii_lowered(rate_type_text(t))) == Some(t),
        all_ascii(ascii_raised(rate_type_text(t))),
        rate_type_named(ascii_lowered(ascii_raised(rate_type_text(t)))) == Some(t),
{
    let n = rate_type_text(t);
    assert(ascii_lowered(n) =~= n);
    assert(ascii_lowered(ascii_raised(n)) =~= n);
}

/// Whether a project is in use.
#[derive(Debug, Clone, Copy, PartialEq, Eq, Structural)]
pub enum ProjectStatus {
    Active,
    Archived,
}

/// The stored name of a project status.
pub open spec fn project_status_text(s: ProjectStatus) -> Seq<char> {
    match s {
        ProjectStatus::Active => seq!['a', 'c', 't', 'i', 'v', 'e'],
        ProjectStatus::Archived => seq!['a', 'r', 'c', 'h', 'i', 'v', 'e', 'd'],
    }
}

/// The status a stored name stands for.
pub open spec fn project_status_named(name: Seq<char>) -> Option<ProjectStatus> {
    if name == seq!['a', 'c', 't', 'i', 'v', 'e'] {
        Some(ProjectStatus::Active)
    } else if name == seq!['a', 'r', 'c', 'h', 'i', 'v', 'e', 'd'] {
        Some(ProjectStatus::Archived)
    } else {
        None
    }
}

impl ProjectStatus {
    /// Reads a status from its stored name.
    pub fn from_str(s: &str) -> (r: Option<ProjectStatus>)
        ensures
            r == project_status_named(s@),
    {
        let l = chars_of(s);
        let mut active: Vec<char> = Vec::new();
        crate::text::push_text(&mut active, "active");
        let mut archived: Vec<char> = Vec::new();
        crate::text::push_text(&mut archived, "archived");
        proof {
            reveal_strlit("active");
            reveal_strlit("archived");
            assert(active@ =~= seq!['a', 'c', 't', 'i', 'v', 'e']);
            assert(archived@ =~= seq!['a', 'r', 'c', 'h', 'i', 'v', 'e', 'd']);
        }
        if same_text(&l, &active) {
            Some(ProjectStatus::Active)
        } else if same_text(&l, &archived) {
            Some(ProjectStatus::Archived)
        } else {
            None
        }
    }

    /// The stored name of the status.
    pub fn as_str(&self) -> (s: &'static str)
        ensures
            s@ == project_status_text(*self),
    {
        proof {
            reveal_strlit("active");
            reveal_strlit("archived");
        }
        match self {
            ProjectStatus::Active => "active",
            ProjectStatus::Archived => "archived",
        }
    }
}

/// A project that time is tracked against.
#[derive(Debug, Clone)]
pub struct Project {
    pub id: i64,
    pub name: String,
    pub client_id: Option<i64>,
    pub color: String,
    pub status: ProjectStatus,
    /// Budget in hours, as the bits of an `f64`.
    pub budget_hours_bits: Option<u64>,
    pub notes: Option<String>,
    pub created_at: i64,
    pub updated_at: i64,
}

/// A client that projects are billed to.
#[derive(Debug, Clone)]
pub struct Client {
    pub id: i64,
    pub name: String,
    pub contact: Option<String>,
    pub email: Option<String>,
    pub notes: Option<String>,
    pub created_at: i64,
    pub updated_at: i64,
}

/// A stored stretch of tracked time; `end_time` is `None` while it runs.
#[derive(Debug, Clone)]
pub struct TimeEntry {
    pub id: i64,
    pub uuid: String,
    pub project_id: i64,
    pub description: String,
    pub start_time: i64,
    pub end_time: Option<i64>,
    pub duration_secs: Option<i64>,
    pub billable: bool,
    pub created_at: i64,
    pub updated_at: i64,
}

/// A time entry about to be stored.
#[derive(Debug, Clone)]
pub struct NewTimeEntry {
    pub project_id: i64,
    pub description: String,
    pub start_time: i64,
    pub end_time: Option<i64>,
    pub billable: bool,
    pub tags: Vec<String>,
}

/// A label for entries.
#[derive(Debug, Clone)]
pub struct Tag {
    pub id: i64,
    pub name: String,
    pub color: String,
}

/// An hourly billing rate.
#[derive(Debug, Clone)]
pub struct Rate {
    pub id: i64,
    pub rate_type: RateType,
    pub project_id: Option<i64>,
    pub client_id: Option<i64>,
    /// The hourly rate, as the bits of an `f64`.
    pub hourly_rate_bits: u64,
    pub currency: String,
    pub effective_from: String,
    pub created_at: i64,
}

/// Time tracked on one day.
#[derive(Debug, Clone)]
pub struct DailySummary {
    pub date: String,
    pub total_seconds: i64,
    pub entry_count: i64,
    pub billable_seconds: i64,
}

/// Time tracked on one project over a period.
#[derive(Debug, Clone)]
pub struct ProjectBreakdown {
    pub project_id: i64,
    pub project_name: String,
    pub project_color: String,
    pub total_seconds: i64,
    pub billable_seconds: i64,
    pub entry_count: i64,
    /// The billable amount, as the bits of an `f64`, when a rate applies.
    pub amount_bits: Option<u64>,
}

/// A week's worth of summaries.
#[derive(Debug, Clone)]
pub struct WeeklyRetrospective {
    pub week_start: String,
    pub week_end: String,
    pub daily_totals: Vec<DailySummary>,
    pub project_breakdowns: Vec<ProjectBreakdown>,
    pub total_seconds: i64,
    pub billable_seconds: i64,
}

} // verus!
