//! Priorities and days of the week.

use vstd::prelude::*;
use vstd::string::*;

use crate::text::{parse_i64, spec_parse_i64};

verus! {

/// Whether a relation between two entries is made or undone.
#[derive(Clone, Copy, Debug, PartialEq, Eq, Structural)]
pub enum RelationAction {
    Add,
    Remove,
}

/// How much a task matters.
#[derive(Clone, Copy, Debug, PartialEq, Eq, Structural)]
pub enum Priority {
    High,
    Medium,
    Low,
}

/// The text of the complaint about `s`, which is `what`.
pub open spec fn spec_invalid(what: Seq<char>, s: Seq<char>) -> Seq<char> {
    what + s
}

impl Priority {
    /// The priority that `s` writes: 0 is high, 1 medium and 2 low.
    pub open spec fn spec_parse(s: Seq<char>) -> Option<Priority> {
        match spec_parse_i64(s) {
            Some(v) => if v == 0 {
                Some(Priority::High)
            } else if v == 1 {
                Some(Priority::Medium)
            } else if v == 2 {
                Some(Priority::Low)
            } else {
                None
            },
            None => None,
        }
    }

    /// Reads a priority; what is no priority comes back in the complaint.
    pub fn parse(s: &str) -> (r: Result<Priority, String>)
        ensures
            match r {
                Ok(p) => Self::spec_parse(s@) == Some(p),
                Err(e) => Self::spec_parse(s@) is None && e@ == spec_invalid(
                    "invalid priority value: "@,
                    s@,
                ),
            },
    {
        match parse_i64(s) {
            Some(0) => Ok(Priority::High),
            Some(1) => Ok(Priority::Medium),
            Some(2) => Ok(Priority::Low),
            _ => Err(String::from_str("invalid priority value: ").concat(s)),
        }
    }

    /// The icon a notification of this priority is shown with.
    pub open spec fn spec_dialog_alarm(&self) -> Seq<char> {
        match self {
            Priority::High => "dialog-warning"@,
            Priority::Medium => "dialog-information"@,
            Priority::Low => "dialog-question"@,
        }
    }

    /// The icon a notification of this priority is shown with.
    pub fn to_dialog_alarm(self) -> (r: &'static str)
        ensures
            r@ == self.spec_dialog_alarm(),
    {
        match self {
            Priority::High => "dialog-warning",
            Priority::Medium => "dialog-information",
            Priority::Low => "dialog-question",
        }
    }
}

impl core::str::FromStr for Priority {
    type Err = String;

    fn from_str(s: &str) -> (r: Result<Self, Self::Err>)
        ensures
            match r {
                Ok(p) => Priority::spec_parse(s@) == Some(p),
                Err(e) => Priority::spec_parse(s@) is None && e@ == spec_invalid(
                    "invalid priority value: "@,
                    s@,
                ),
            },
    {
        Priority::parse(s)
    }
}

impl Default for Priority {
    fn default() -> (r: Self)
        ensures
            r == Priority::Low,
    {
        Priority::Low
    }
}

/// A day of the week.
#[derive(Clone, Copy, Debug, PartialEq, Eq, Structural)]
pub enum Day {
    Monday,
    Tuesday,
    Wednesday,
    Thursday,
    Friday,
    Saturday,
    Sunday,
}

impl Day {
    /// The day that `s` writes: 1 is Monday and so on to 6, and 0 is Sunday.
    pub open spec fn spec_parse(s: Seq<char>) -> Option<Day> {
        match spec_parse_i64(s) {
            Some(v) => if v == 1 {
                Some(Day::Monday)
            } else if v == 2 {
                Some(Day::Tuesday)
            } else if v == 3 {
                Some(Day::Wednesday)
            } else if v == 4 {
                Some(Day::Thursday)
            } else if v == 5 {
                Some(Day::Friday)
            } else if v == 6 {
                Some(Day::Saturday)
            } else if v == 0 {
                Some(Day::Sunday)
            } else {
                None
            },
            None => None,
        }
    }

    /// Reads a day; what is no day comes back in the complaint.
    pub fn parse(s: &str) -> (r: Result<Day, String>)
        ensures
            match r {
                Ok(d) => Self::spec_parse(s@) == Some(d),
                Err(e) => Self::spec_parse(s@) is None && e@ == spec_invalid(
                    "invalid priority value: "@,
                    s@,
                ),
            },
    {
        match parse_i64(s) {
            Some(1) => Ok(Day::Monday),
            Some(2) => Ok(Day::Tuesday),
            Some(3) => Ok(Day::Wednesday),
            Some(4) => Ok(Day::Thursday),
            Some(5) => Ok(Day::Friday),
            Some(6) => Ok(Day::Saturday),
            Some(0) => Ok(Day::Sunday),
            _ => Err(String::from_str("invalid priority value: ").concat(s)),
        }
    }

    /// The number of the day in the week, Monday being 1 and Sunday 7.
    pub open spec fn spec_digit(&self) -> i8 {
        match self {
            Day::Monday => 1,
            Day::Tuesday => 2,
            Day::Wednesday => 3,
            Day::Thursday => 4,
            Day::Friday => 5,
            Day::Saturday => 6,
            Day::Sunday => 7,
        }
    }

    /// The number of the day in the week.
    pub fn get_digit(&self) -> (r: i8)
        ensures
            r == self.spec_digit(),
    {
        match self {
            Day::Monday => 1,
            Day::Tuesday => 2,
            Day::Wednesday => 3,
            Day::Thursday => 4,
            Day::Friday => 5,
            Day::Saturday => 6,
            Day::Sunday => 7,
        }
    }
}

impl core::str::FromStr for Day {
    type Err = String;

    fn from_str(s: &str) -> (r: Result<Self, Self::Err>)
        ensures
            match r {
                Ok(d) => Day::spec_parse(s@) == Some(d),
                Err(e) => Day::spec_parse(s@) is None && e@ == spec_invalid(
                    "invalid priority value: "@,
                    s@,
                ),
            },
    {
        Day::parse(s)
    }
}

} // verus!
