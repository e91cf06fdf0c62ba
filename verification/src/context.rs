//! The context snapshot the suggestion engine consumes: working directory,
//! time of day, day of week, git branch and project type.
//!
//! Sensing the context (clock, environment, marker files) is a collaborator's
//! job; this module holds the snapshot type and the pure classification of
//! raw readings into snapshot fields.

use vstd::prelude::*;

verus! {

/// Coarse time-of-day buckets.
#[derive(Clone, Copy, PartialEq, Eq, Structural, Debug)]
pub enum TimeOfDay {
    Morning,
    Afternoon,
    Evening,
    Night,
}

impl TimeOfDay {
    /// The textual form stored beside persisted suggestions.
    pub fn label(&self) -> (r: &'static str)
        ensures
            *self == TimeOfDay::Morning ==> r@ == "Morning"@,
            *self == TimeOfDay::Afternoon ==> r@ == "Afternoon"@,
            *self == TimeOfDay::Evening ==> r@ == "Evening"@,
            *self == TimeOfDay::Night ==> r@ == "Night"@,
    {
        match self {
            TimeOfDay::Morning => "Morning",
            TimeOfDay::Afternoon => "Afternoon",
            TimeOfDay::Evening => "Evening",
            TimeOfDay::Night => "Night",
        }
    }
}

/// Days of the week.
#[derive(Clone, Copy, PartialEq, Eq, Structural, Debug)]
pub enum DayOfWeek {
    Monday,
    Tuesday,
    Wednesday,
    Thursday,
    Friday,
    Saturday,
    Sunday,
}

/// Project toolchains recognized from marker files.
#[derive(Clone, Copy, PartialEq, Eq, Structural, Debug)]
pub enum ProjectType {
    Node,
    Rust,
    Python,
    Go,
    Java,
    Ruby,
    Other,
}

/// A snapshot of the current working context. Immutable; recomputed fresh on
/// every suggestion request by the sensing collaborator.
pub struct Context {
    pub working_directory: String,
    pub time_of_day: TimeOfDay,
    pub day_of_week: DayOfWeek,
    pub git_branch: Option<String>,
    pub project_type: Option<ProjectType>,
}

/// The time-of-day bucket of an hour on the 24-hour clock: 6-11 morning,
/// 12-17 afternoon, 18-21 evening, the rest night.
pub open spec fn spec_time_of_day(hour: int) -> TimeOfDay {
    if 6 <= hour <= 11 {
        TimeOfDay::Morning
    } else if 12 <= hour <= 17 {
        TimeOfDay::Afternoon
    } else if 18 <= hour <= 21 {
        TimeOfDay::Evening
    } else {
        TimeOfDay::Night
    }
}

/// The day of the week at `days_from_monday` days past Monday.
pub open spec fn spec_day_of_week(days_from_monday: int) -> DayOfWeek {
    if days_from_monday == 0 {
        DayOfWeek::Monday
    } else if days_from_monday == 1 {
        DayOfWeek::Tuesday
    } else if days_from_monday == 2 {
        DayOfWeek::Wednesday
    } else if days_from_monday == 3 {
        DayOfWeek::Thursday
    } else if days_from_monday == 4 {
        DayOfWeek::Friday
    } else if days_from_monday == 5 {
        DayOfWeek::Saturday
    } else {
        DayOfWeek::Sunday
    }
}

/// The project type read off a directory listing, by marker priority:
/// package.json, Cargo.toml, requirements.txt or setup.py, go.mod, pom.xml,
/// Gemfile; anything else is `Other`.
pub open spec fn spec_project_type(entries: Seq<Seq<char>>) -> Option<ProjectType> {
    if entries.contains("package.json"@) {
        Some(ProjectType::Node)
    } else if entries.contains("Cargo.toml"@) {
        Some(ProjectType::Rust)
    } else if entries.contains("requirements.txt"@) || entries.contains("setup.py"@) {
        Some(ProjectType::Python)
    } else if entries.contains("go.mod"@) {
        Some(ProjectType::Go)
    } else if entries.contains("pom.xml"@) {
        Some(ProjectType::Java)
    } else if entries.contains("Gemfile"@) {
        Some(ProjectType::Ruby)
    } else {
        Some(ProjectType::Other)
    }
}

/// Is the named file among the directory entries?
pub fn has_entry(entries: &Vec<String>, name: &str) -> (r: bool)
    ensures
        r == entries.deep_view().contains(name@),
{
    let mut i: usize = 0;
    while i < entries.len()
        invariant
            0 <= i <= entries@.len(),
            forall|j: int| 0 <= j < i ==> entries.deep_view()[j] != name@,
        decreases entries@.len() - i,
    {
        if crate::strutil::str_eq(entries[i].as_str(), name) {
            proof {
                assert(entries.deep_view()[i as int] == name@);
            }
            return true;
        }
        i += 1;
    }
    false
}

/// Classifies raw context readings into snapshot fields. The readings
/// themselves (clock, directory listing, git) come from the sensing
/// collaborator.
pub struct ContextDetector;

impl ContextDetector {
    /// The time-of-day bucket of an hour on the 24-hour clock.
    pub fn detect_time_of_day(hour: u8) -> (r: TimeOfDay)
        ensures
            r == spec_time_of_day(hour as int),
    {
        if 6 <= hour && hour <= 11 {
            TimeOfDay::Morning
        } else if 12 <= hour && hour <= 17 {
            TimeOfDay::Afternoon
        } else if 18 <= hour && hour <= 21 {
            TimeOfDay::Evening
        } else {
            TimeOfDay::Night
        }
    }

    /// The day of the week at `days_from_monday` days past Monday (0 is
    /// Monday, 6 is Sunday).
    pub fn detect_day_of_week(days_from_monday: u8) -> (r: DayOfWeek)
        requires
            days_from_monday <= 6,
        ensures
            r == spec_day_of_week(days_from_monday as int),
    {
        if days_from_monday == 0 {
            DayOfWeek::Monday
        } else if days_from_monday == 1 {
            DayOfWeek::Tuesday
        } else if days_from_monday == 2 {
            DayOfWeek::Wednesday
        } else if days_from_monday == 3 {
            DayOfWeek::Thursday
        } else if days_from_monday == 4 {
            DayOfWeek::Friday
        } else if days_from_monday == 5 {
            DayOfWeek::Saturday
        } else {
            DayOfWeek::Sunday
        }
    }

    /// The project type read off the working directory's entries, by marker
    /// priority; a directory with no known marker is classified `Other`.
    pub fn detect_project_type(entries: &Vec<String>) -> (r: Option<ProjectType>)
        ensures
            r == spec_project_type(entries.deep_view()),
    {
        if has_entry(entries, "package.json") {
            Some(ProjectType::Node)
        } else if has_entry(entries, "Cargo.toml") {
            Some(ProjectType::Rust)
        } else if has_entry(entries, "requirements.txt") || has_entry(entries, "setup.py") {
            Some(ProjectType::Python)
        } else if has_entry(entries, "go.mod") {
            Some(ProjectType::Go)
        } else if has_entry(entries, "pom.xml") {
            Some(ProjectType::Java)
        } else if has_entry(entries, "Gemfile") {
            Some(ProjectType::Ruby)
        } else {
            Some(ProjectType::Other)
        }
    }
}

} // verus!
