//! The status of an appraisal cycle.

use vstd::prelude::*;
use vstd::string::*;
use crate::json::{json_string, json_string_value};
use crate::text::{text_eq, join2, to_lowercase, unicode_lowercase, ascii_lower, all_ascii};

verus! {

/// The status of an appraisal cycle.
#[derive(Debug, Clone, Copy, PartialEq, Eq, Hash, Structural)]
pub enum CycleStatus {
    Draft,
    Open,
    Calibration,
    Closed,
    Cancelled,
}

impl CycleStatus {
    /// The snake_case name of the value, as it is shown and stored.
    pub open spec fn name(self) -> Seq<char> {
        match self {
            CycleStatus::Draft => "draft"@,
            CycleStatus::Open => "open"@,
            CycleStatus::Calibration => "calibration"@,
            CycleStatus::Closed => "closed"@,
            CycleStatus::Cancelled => "cancelled"@,
        }
    }

    /// The value whose name is `s`, if any.
    pub open spec fn from_name(s: Seq<char>) -> Option<CycleStatus> {
        if s == "draft"@ {
            Some(CycleStatus::Draft)
        } else if s == "open"@ {
            Some(CycleStatus::Open)
        } else if s == "calibration"@ {
            Some(CycleStatus::Calibration)
        } else if s == "closed"@ {
            Some(CycleStatus::Closed)
        } else if s == "cancelled"@ {
            Some(CycleStatus::Cancelled)
        } else {
            None
        }
    }

    /// The error text for a name that is not one of the values.
    pub open spec fn unknown_message(s: Seq<char>) -> Seq<char> {
        "Unknown CycleStatus variant: "@ + s
    }

    /// The name of the value (its displayed form).
    pub fn to_string(&self) -> (s: String)
        ensures
            s@ == self.name(),
    {
        match self {
            CycleStatus::Draft => String::from_str("draft"),
            CycleStatus::Open => String::from_str("open"),
            CycleStatus::Calibration => String::from_str("calibration"),
            CycleStatus::Closed => String::from_str("closed"),
            CycleStatus::Cancelled => String::from_str("cancelled"),
        }
    }

    /// Parses an already lower-cased name; `given` is the text as it was
    /// given, quoted in the error.
    pub fn from_lowercased(lowered: &str, given: &str) -> (r: Result<CycleStatus, String>)
        ensures
            match CycleStatus::from_name(lowered@) {
                Some(v) => r == Ok::<CycleStatus, String>(v),
                None => r matches Err(msg) && msg@ == CycleStatus::unknown_message(given@),
            },
    {
        if text_eq(lowered, "draft") {
            Ok(CycleStatus::Draft)
        } else if text_eq(lowered, "open") {
            Ok(CycleStatus::Open)
        } else if text_eq(lowered, "calibration") {
            Ok(CycleStatus::Calibration)
        } else if text_eq(lowered, "closed") {
            Ok(CycleStatus::Closed)
        } else if text_eq(lowered, "cancelled") {
            Ok(CycleStatus::Cancelled)
        } else {
            Err(join2("Unknown CycleStatus variant: ", given))
        }
    }

    /// Parses a name, ignoring case (`str::to_lowercase` first). For an
    /// all-ASCII text that is the ASCII lower-case form.
    pub fn from_str(s: &str) -> (r: Result<CycleStatus, String>)
        ensures
            match CycleStatus::from_name(unicode_lowercase(s@)) {
                Some(v) => r == Ok::<CycleStatus, String>(v),
                None => r matches Err(msg) && msg@ == CycleStatus::unknown_message(s@),
            },
            all_ascii(s@) ==> match CycleStatus::from_name(ascii_lower(s@)) {
                Some(v) => r == Ok::<CycleStatus, String>(v),
                None => r matches Err(msg) && msg@ == CycleStatus::unknown_message(s@),
            },
    {
        let lowered = to_lowercase(s);
        CycleStatus::from_lowercased(lowered.as_str(), s)
    }

    /// The value a JSON text holds: a JSON string that is exactly its name.
    pub open spec fn json_value(text: Seq<char>) -> Option<CycleStatus> {
        match json_string_value(text) {
            Some(v) => CycleStatus::from_name(v),
            None => None,
        }
    }

    /// Reads a value from JSON text, as a function.
    pub open spec fn json_reader() -> spec_fn(Seq<char>) -> Option<CycleStatus> {
        |t: Seq<char>| CycleStatus::json_value(t)
    }

    /// Reads a value from JSON text: a JSON string holding its exact name.
    pub fn from_json(text: &str) -> (r: Option<CycleStatus>)
        ensures
            r == CycleStatus::json_value(text@),
    {
        match json_string(text) {
            Some(v) => match CycleStatus::from_lowercased(v.as_str(), v.as_str()) {
                Ok(x) => Some(x),
                Err(_) => None,
            },
            None => None,
        }
    }
}

impl Default for CycleStatus {
    fn default() -> (r: CycleStatus)
        ensures
            r == CycleStatus::Draft,
    {
        CycleStatus::Draft
    }
}

/// Parsing the displayed name of a value gives the value back, in any
/// letter case: the name is ASCII, its own lower-case form, and names
/// exactly this value.
pub proof fn lemma_cycle_status_name_round_trip(v: CycleStatus)
    ensures
        all_ascii(v.name()),
        ascii_lower(v.name()) == v.name(),
        CycleStatus::from_name(v.name()) == Some(v),
{
    reveal_strlit("draft");
    reveal_strlit("open");
    reveal_strlit("calibration");
    reveal_strlit("closed");
    reveal_strlit("cancelled");
    assert(ascii_lower(v.name()) =~= v.name());
    match v {
        CycleStatus::Draft => {
        }
        CycleStatus::Open => {
            assert("draft"@.len() != "open"@.len());
        }
        CycleStatus::Calibration => {
            assert("draft"@.len() != "calibration"@.len());
            assert("open"@.len() != "calibration"@.len());
        }
        CycleStatus::Closed => {
            assert("draft"@.len() != "closed"@.len());
            assert("open"@.len() != "closed"@.len());
            assert("calibration"@.len() != "closed"@.len());
        }
        CycleStatus::Cancelled => {
            assert("draft"@.len() != "cancelled"@.len());
            assert("open"@.len() != "cancelled"@.len());
            assert("calibration"@.len() != "cancelled"@.len());
            assert("closed"@.len() != "cancelled"@.len());
        }
    }
}

/// Different values have different names.
pub proof fn lemma_cycle_status_names_distinct(a: CycleStatus, b: CycleStatus)
    ensures
        a.name() == b.name() ==> a == b,
{
    lemma_cycle_status_name_round_trip(a);
    lemma_cycle_status_name_round_trip(b);
}

} // verus!
