//! The status of a goal.

use vstd::prelude::*;
use vstd::string::*;
use crate::json::{json_string, json_string_value};
use crate::text::{text_eq, join2, to_lowercase, unicode_lowercase, ascii_lower, all_ascii};

verus! {

/// The status of a goal.
#[derive(Debug, Clone, Copy, PartialEq, Eq, Hash, Structural)]
pub enum GoalStatus {
    Draft,
    Active,
    Achieved,
    Missed,
    Cancelled,
}

impl GoalStatus {
    /// The snake_case name of the value, as it is shown and stored.
    pub open spec fn name(self) -> Seq<char> {
        match self {
            GoalStatus::Draft => "draft"@,
            GoalStatus::Active => "active"@,
            GoalStatus::Achieved => "achieved"@,
            GoalStatus::Missed => "missed"@,
            GoalStatus::Cancelled => "cancelled"@,
        }
    }

    /// The value whose name is `s`, if any.
    pub open spec fn from_name(s: Seq<char>) -> Option<GoalStatus> {
        if s == "draft"@ {
            Some(GoalStatus::Draft)
        } else if s == "active"@ {
            Some(GoalStatus::Active)
        } else if s == "achieved"@ {
            Some(GoalStatus::Achieved)
        } else if s == "missed"@ {
            Some(GoalStatus::Missed)
        } else if s == "cancelled"@ {
            Some(GoalStatus::Cancelled)
        } else {
            None
        }
    }

    /// The error text for a name that is not one of the values.
    pub open spec fn unknown_message(s: Seq<char>) -> Seq<char> {
        "Unknown GoalStatus variant: "@ + s
    }

    /// The name of the value (its displayed form).
    pub fn to_string(&self) -> (s: String)
        ensures
            s@ == self.name(),
    {
        match self {
            GoalStatus::Draft => String::from_str("draft"),
            GoalStatus::Active => String::from_str("active"),
            GoalStatus::Achieved => String::from_str("achieved"),
            GoalStatus::Missed => String::from_str("missed"),
            GoalStatus::Cancelled => String::from_str("cancelled"),
        }
    }

    /// Parses an already lower-cased name; `given` is the text as it was
    /// given, quoted in the error.
    pub fn from_lowercased(lowered: &str, given: &str) -> (r: Result<GoalStatus, String>)
        ensures
            match GoalStatus::from_name(lowered@) {
                Some(v) => r == Ok::<GoalStatus, String>(v),
                None => r matches Err(msg) && msg@ == GoalStatus::unknown_message(given@),
            },
    {
        if text_eq(lowered, "draft") {
            Ok(GoalStatus::Draft)
        } else if text_eq(lowered, "active") {
            Ok(GoalStatus::Active)
        } else if text_eq(lowered, "achieved") {
            Ok(GoalStatus::Achieved)
        } else if text_eq(lowered, "missed") {
            Ok(GoalStatus::Missed)
        } else if text_eq(lowered, "cancelled") {
            Ok(GoalStatus::Cancelled)
        } else {
            Err(join2("Unknown GoalStatus variant: ", given))
        }
    }

    /// Parses a name, ignoring case (`str::to_lowercase` first). For an
    /// all-ASCII text that is the ASCII lower-case form.
    pub fn from_str(s: &str) -> (r: Result<GoalStatus, String>)
        ensures
            match GoalStatus::from_name(unicode_lowercase(s@)) {
                Some(v) => r == Ok::<GoalStatus, String>(v),
                None => r matches Err(msg) && msg@ == GoalStatus::unknown_message(s@),
            },
            all_ascii(s@) ==> match GoalStatus::from_name(ascii_lower(s@)) {
                Some(v) => r == Ok::<GoalStatus, String>(v),
                None => r matches Err(msg) && msg@ == GoalStatus::unknown_message(s@),
            },
    {
        let lowered = to_lowercase(s);
        GoalStatus::from_lowercased(lowered.as_str(), s)
    }

    /// The value a JSON text holds: a JSON string that is exactly its name.
    pub open spec fn json_value(text: Seq<char>) -> Option<GoalStatus> {
        match json_string_value(text) {
            Some(v) => GoalStatus::from_name(v),
            None => None,
        }
    }

    /// Reads a value from JSON text, as a function.
    pub open spec fn json_reader() -> spec_fn(Seq<char>) -> Option<GoalStatus> {
        |t: Seq<char>| GoalStatus::json_value(t)
    }

    /// Reads a value from JSON text: a JSON string holding its exact name.
    pub fn from_json(text: &str) -> (r: Option<GoalStatus>)
        ensures
            r == GoalStatus::json_value(text@),
    {
        match json_string(text) {
            Some(v) => match GoalStatus::from_lowercased(v.as_str(), v.as_str()) {
                Ok(x) => Some(x),
                Err(_) => None,
            },
            None => None,
        }
    }
}

impl Default for GoalStatus {
    fn default() -> (r: GoalStatus)
        ensures
            r == GoalStatus::Draft,
    {
        GoalStatus::Draft
    }
}

/// Parsing the displayed name of a value gives the value back, in any
/// letter case: the name is ASCII, its own lower-case form, and names
/// exactly this value.
pub proof fn lemma_goal_status_name_round_trip(v: GoalStatus)
    ensures
        all_ascii(v.name()),
        ascii_lower(v.name()) == v.name(),
        GoalStatus::from_name(v.name()) == Some(v),
{
    reveal_strlit("draft");
    reveal_strlit("active");
    reveal_strlit("achieved");
    reveal_strlit("missed");
    reveal_strlit("cancelled");
    assert(ascii_lower(v.name()) =~= v.name());
    match v {
        GoalStatus::Draft => {
        }
        GoalStatus::Active => {
            assert("draft"@.len() != "active"@.len());
        }
        GoalStatus::Achieved => {
            assert("draft"@.len() != "achieved"@.len());
            assert("active"@.len() != "achieved"@.len());
        }
        GoalStatus::Missed => {
            assert("draft"@.len() != "missed"@.len());
            assert("active"@[0] != "missed"@[0]);
            assert("achieved"@.len() != "missed"@.len());
        }
        GoalStatus::Cancelled => {
            assert("draft"@.len() != "cancelled"@.len());
            assert("active"@.len() != "cancelled"@.len());
            assert("achieved"@.len() != "cancelled"@.len());
            assert("missed"@.len() != "cancelled"@.len());
        }
    }
}

/// Different values have different names.
pub proof fn lemma_goal_status_names_distinct(a: GoalStatus, b: GoalStatus)
    ensures
        a.name() == b.name() ==> a == b,
{
    lemma_goal_status_name_round_trip(a);
    lemma_goal_status_name_round_trip(b);
}

} // verus!
