//! The status of an appraisal.

use vstd::prelude::*;
use vstd::string::*;
use crate::json::{json_string, json_string_value};
use crate::text::{text_eq, join2, to_lowercase, unicode_lowercase, ascii_lower, all_ascii};

verus! {

/// The status of an appraisal.
#[derive(Debug, Clone, Copy, PartialEq, Eq, Hash, Structural)]
pub enum AppraisalStatus {
    Draft,
    SelfReview,
    Submitted,
    Calibrated,
    Finalized,
}

impl AppraisalStatus {
    /// The snake_case name of the value, as it is shown and stored.
    pub open spec fn name(self) -> Seq<char> {
        match self {
            AppraisalStatus::Draft => "draft"@,
            AppraisalStatus::SelfReview => "self_review"@,
            AppraisalStatus::Submitted => "submitted"@,
            AppraisalStatus::Calibrated => "calibrated"@,
            AppraisalStatus::Finalized => "finalized"@,
        }
    }

    /// The value whose name is `s`, if any.
    pub open spec fn from_name(s: Seq<char>) -> Option<AppraisalStatus> {
        if s == "draft"@ {
            Some(AppraisalStatus::Draft)
        } else if s == "self_review"@ {
            Some(AppraisalStatus::SelfReview)
        } else if s == "submitted"@ {
            Some(AppraisalStatus::Submitted)
        } else if s == "calibrated"@ {
            Some(AppraisalStatus::Calibrated)
        } else if s == "finalized"@ {
            Some(AppraisalStatus::Finalized)
        } else {
            None
        }
    }

    /// The error text for a name that is not one of the values.
    pub open spec fn unknown_message(s: Seq<char>) -> Seq<char> {
        "Unknown AppraisalStatus variant: "@ + s
    }

    /// The name of the value (its displayed form).
    pub fn to_string(&self) -> (s: String)
        ensures
            s@ == self.name(),
    {
        match self {
            AppraisalStatus::Draft => String::from_str("draft"),
            AppraisalStatus::SelfReview => String::from_str("self_review"),
            AppraisalStatus::Submitted => String::from_str("submitted"),
            AppraisalStatus::Calibrated => String::from_str("calibrated"),
            AppraisalStatus::Finalized => String::from_str("finalized"),
        }
    }

    /// Parses an already lower-cased name; `given` is the text as it was
    /// given, quoted in the error.
    pub fn from_lowercased(lowered: &str, given: &str) -> (r: Result<AppraisalStatus, String>)
        ensures
            match AppraisalStatus::from_name(lowered@) {
                Some(v) => r == Ok::<AppraisalStatus, String>(v),
                None => r matches Err(msg) && msg@ == AppraisalStatus::unknown_message(given@),
            },
    {
        if text_eq(lowered, "draft") {
            Ok(AppraisalStatus::Draft)
        } else if text_eq(lowered, "self_review") {
            Ok(AppraisalStatus::SelfReview)
        } else if text_eq(lowered, "submitted") {
            Ok(AppraisalStatus::Submitted)
        } else if text_eq(lowered, "calibrated") {
            Ok(AppraisalStatus::Calibrated)
        } else if text_eq(lowered, "finalized") {
            Ok(AppraisalStatus::Finalized)
        } else {
            Err(join2("Unknown AppraisalStatus variant: ", given))
        }
    }

    /// Parses a name, ignoring case (`str::to_lowercase` first). For an
    /// all-ASCII text that is the ASCII lower-case form.
    pub fn from_str(s: &str) -> (r: Result<AppraisalStatus, String>)
        ensures
            match AppraisalStatus::from_name(unicode_lowercase(s@)) {
                Some(v) => r == Ok::<AppraisalStatus, String>(v),
                None => r matches Err(msg) && msg@ == AppraisalStatus::unknown_message(s@),
            },
            all_ascii(s@) ==> match AppraisalStatus::from_name(ascii_lower(s@)) {
                Some(v) => r == Ok::<AppraisalStatus, String>(v),
                None => r matches Err(msg) && msg@ == AppraisalStatus::unknown_message(s@),
            },
    {
        let lowered = to_lowercase(s);
        AppraisalStatus::from_lowercased(lowered.as_str(), s)
    }

    /// The value a JSON text holds: a JSON string that is exactly its name.
    pub open spec fn json_value(text: Seq<char>) -> Option<AppraisalStatus> {
        match json_string_value(text) {
            Some(v) => AppraisalStatus::from_name(v),
            None => None,
        }
    }

    /// Reads a value from JSON text, as a function.
    pub open spec fn json_reader() -> spec_fn(Seq<char>) -> Option<AppraisalStatus> {
        |t: Seq<char>| AppraisalStatus::json_value(t)
    }

    /// Reads a value from JSON text: a JSON string holding its exact name.
    pub fn from_json(text: &str) -> (r: Option<AppraisalStatus>)
        ensures
            r == AppraisalStatus::json_value(text@),
    {
        match json_string(text) {
            Some(v) => match AppraisalStatus::from_lowercased(v.as_str(), v.as_str()) {
                Ok(x) => Some(x),
                Err(_) => None,
            },
            None => None,
        }
    }
}

impl Default for AppraisalStatus {
    fn default() -> (r: AppraisalStatus)
        ensures
            r == AppraisalStatus::Draft,
    {
        AppraisalStatus::Draft
    }
}

/// Parsing the displayed name of a value gives the value back, in any
/// letter case: the name is ASCII, its own lower-case form, and names
/// exactly this value.
pub proof fn lemma_appraisal_status_name_round_trip(v: AppraisalStatus)
    ensures
        all_ascii(v.name()),
        ascii_lower(v.name()) == v.name(),
        AppraisalStatus::from_name(v.name()) == Some(v),
{
    reveal_strlit("draft");
    reveal_strlit("self_review");
    reveal_strlit("submitted");
    reveal_strlit("calibrated");
    reveal_strlit("finalized");
    assert(ascii_lower(v.name()) =~= v.name());
    match v {
        AppraisalStatus::Draft => {
        }
        AppraisalStatus::SelfReview => {
            assert("draft"@.len() != "self_review"@.len());
        }
        AppraisalStatus::Submitted => {
            assert("draft"@.len() != "submitted"@.len());
            assert("self_review"@.len() != "submitted"@.len());
        }
        AppraisalStatus::Calibrated => {
            assert("draft"@.len() != "calibrated"@.len());
            assert("self_review"@.len() != "calibrated"@.len());
            assert("submitted"@.len() != "calibrated"@.len());
        }
        AppraisalStatus::Finalized => {
            assert("draft"@.len() != "finalized"@.len());
            assert("self_review"@.len() != "finalized"@.len());
            assert("submitted"@[0] != "finalized"@[0]);
            assert("calibrated"@.len() != "finalized"@.len());
        }
    }
}

/// Different values have different names.
pub proof fn lemma_appraisal_status_names_distinct(a: AppraisalStatus, b: AppraisalStatus)
    ensures
        a.name() == b.name() ==> a == b,
{
    lemma_appraisal_status_name_round_trip(a);
    lemma_appraisal_status_name_round_trip(b);
}

} // verus!
