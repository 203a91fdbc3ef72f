//! How the giver of a piece of feedback relates to its receiver.

use vstd::prelude::*;
use vstd::string::*;
use crate::json::{json_string, json_string_value};
use crate::text::{text_eq, join2, to_lowercase, unicode_lowercase, ascii_lower, all_ascii};

verus! {

/// How the giver of a piece of feedback relates to its receiver.
#[derive(Debug, Clone, Copy, PartialEq, Eq, Hash, Structural)]
pub enum FeedbackRelationship {
    Peer,
    Manager,
    DirectReport,
    CrossFunctional,
}

impl FeedbackRelationship {
    /// The snake_case name of the value, as it is shown and stored.
    pub open spec fn name(self) -> Seq<char> {
        match self {
            FeedbackRelationship::Peer => "peer"@,
            FeedbackRelationship::Manager => "manager"@,
            FeedbackRelationship::DirectReport => "direct_report"@,
            FeedbackRelationship::CrossFunctional => "cross_functional"@,
        }
    }

    /// The value whose name is `s`, if any.
    pub open spec fn from_name(s: Seq<char>) -> Option<FeedbackRelationship> {
        if s == "peer"@ {
            Some(FeedbackRelationship::Peer)
        } else if s == "manager"@ {
            Some(FeedbackRelationship::Manager)
        } else if s == "direct_report"@ {
            Some(FeedbackRelationship::DirectReport)
        } else if s == "cross_functional"@ {
            Some(FeedbackRelationship::CrossFunctional)
        } else {
            None
        }
    }

    /// The error text for a name that is not one of the values.
    pub open spec fn unknown_message(s: Seq<char>) -> Seq<char> {
        "Unknown FeedbackRelationship variant: "@ + s
    }

    /// The name of the value (its displayed form).
    pub fn to_string(&self) -> (s: String)
        ensures
            s@ == self.name(),
    {
        match self {
            FeedbackRelationship::Peer => String::from_str("peer"),
            FeedbackRelationship::Manager => String::from_str("manager"),
            FeedbackRelationship::DirectReport => String::from_str("direct_report"),
            FeedbackRelationship::CrossFunctional => String::from_str("cross_functional"),
        }
    }

    /// Parses an already lower-cased name; `given` is the text as it was
    /// given, quoted in the error.
    pub fn from_lowercased(lowered: &str, given: &str) -> (r: Result<FeedbackRelationship, String>)
        ensures
            match FeedbackRelationship::from_name(lowered@) {
                Some(v) => r == Ok::<FeedbackRelationship, String>(v),
                None => r matches Err(msg) && msg@ == FeedbackRelationship::unknown_message(given@),
            },
    {
        if text_eq(lowered, "peer") {
            Ok(FeedbackRelationship::Peer)
        } else if text_eq(lowered, "manager") {
            Ok(FeedbackRelationship::Manager)
        } else if text_eq(lowered, "direct_report") {
            Ok(FeedbackRelationship::DirectReport)
        } else if text_eq(lowered, "cross_functional") {
            Ok(FeedbackRelationship::CrossFunctional)
        } else {
            Err(join2("Unknown FeedbackRelationship variant: ", given))
        }
    }

    /// Parses a name, ignoring case (`str::to_lowercase` first). For an
    /// all-ASCII text that is the ASCII lower-case form.
    pub fn from_str(s: &str) -> (r: Result<FeedbackRelationship, String>)
        ensures
            match FeedbackRelationship::from_name(unicode_lowercase(s@)) {
                Some(v) => r == Ok::<FeedbackRelationship, String>(v),
                None => r matches Err(msg) && msg@ == FeedbackRelationship::unknown_message(s@),
            },
            all_ascii(s@) ==> match FeedbackRelationship::from_name(ascii_lower(s@)) {
                Some(v) => r == Ok::<FeedbackRelationship, String>(v),
                None => r matches Err(msg) && msg@ == FeedbackRelationship::unknown_message(s@),
            },
    {
        let lowered = to_lowercase(s);
        FeedbackRelationship::from_lowercased(lowered.as_str(), s)
    }

    /// The value a JSON text holds: a JSON string that is exactly its name.
    pub open spec fn json_value(text: Seq<char>) -> Option<FeedbackRelationship> {
        match json_string_value(text) {
            Some(v) => FeedbackRelationship::from_name(v),
            None => None,
        }
    }

    /// Reads a value from JSON text, as a function.
    pub open spec fn json_reader() -> spec_fn(Seq<char>) -> Option<FeedbackRelationship> {
        |t: Seq<char>| FeedbackRelationship::json_value(t)
    }

    /// Reads a value from JSON text: a JSON string holding its exact name.
    pub fn from_json(text: &str) -> (r: Option<FeedbackRelationship>)
        ensures
            r == FeedbackRelationship::json_value(text@),
    {
        match json_string(text) {
            Some(v) => match FeedbackRelationship::from_lowercased(v.as_str(), v.as_str()) {
                Ok(x) => Some(x),
                Err(_) => None,
            },
            None => None,
        }
    }
}

impl Default for FeedbackRelationship {
    fn default() -> (r: FeedbackRelationship)
        ensures
            r == FeedbackRelationship::Peer,
    {
        FeedbackRelationship::Peer
    }
}

/// Parsing the displayed name of a value gives the value back, in any
/// letter case: the name is ASCII, its own lower-case form, and names
/// exactly this value.
pub proof fn lemma_feedback_relationship_name_round_trip(v: FeedbackRelationship)
    ensures
        all_ascii(v.name()),
        ascii_lower(v.name()) == v.name(),
        FeedbackRelationship::from_name(v.name()) == Some(v),
{
    reveal_strlit("peer");
    reveal_strlit("manager");
    reveal_strlit("direct_report");
    reveal_strlit("cross_functional");
    assert(ascii_lower(v.name()) =~= v.name());
    match v {
        FeedbackRelationship::Peer => {
        }
        FeedbackRelationship::Manager => {
            assert("peer"@.len() != "manager"@.len());
        }
        FeedbackRelationship::DirectReport => {
            assert("peer"@.len() != "direct_report"@.len());
            assert("manager"@.len() != "direct_report"@.len());
        }
        FeedbackRelationship::CrossFunctional => {
            assert("peer"@.len() != "cross_functional"@.len());
            assert("manager"@.len() != "cross_functional"@.len());
            assert("direct_report"@.len() != "cross_functional"@.len());
        }
    }
}

/// Different values have different names.
pub proof fn lemma_feedback_relationship_names_distinct(a: FeedbackRelationship, b: FeedbackRelationship)
    ensures
        a.name() == b.name() ==> a == b,
{
    lemma_feedback_relationship_name_round_trip(a);
    lemma_feedback_relationship_name_round_trip(b);
}

} // verus!
