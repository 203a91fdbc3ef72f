//! The kind of a reward.

use vstd::prelude::*;
use vstd::string::*;
use crate::json::{json_string, json_string_value};
use crate::text::{text_eq, join2, to_lowercase, unicode_lowercase, ascii_lower, all_ascii};

verus! {

/// The kind of a reward.
#[derive(Debug, Clone, Copy, PartialEq, Eq, Hash, Structural)]
pub enum RewardType {
    Recognition,
    Bonus,
    Gift,
    LeaveCredit,
    Certificate,
}

impl RewardType {
    /// The snake_case name of the value, as it is shown and stored.
    pub open spec fn name(self) -> Seq<char> {
        match self {
            RewardType::Recognition => "recognition"@,
            RewardType::Bonus => "bonus"@,
            RewardType::Gift => "gift"@,
            RewardType::LeaveCredit => "leave_credit"@,
            RewardType::Certificate => "certificate"@,
        }
    }

    /// The value whose name is `s`, if any.
    pub open spec fn from_name(s: Seq<char>) -> Option<RewardType> {
        if s == "recognition"@ {
            Some(RewardType::Recognition)
        } else if s == "bonus"@ {
            Some(RewardType::Bonus)
        } else if s == "gift"@ {
            Some(RewardType::Gift)
        } else if s == "leave_credit"@ {
            Some(RewardType::LeaveCredit)
        } else if s == "certificate"@ {
            Some(RewardType::Certificate)
        } else {
            None
        }
    }

    /// The error text for a name that is not one of the values.
    pub open spec fn unknown_message(s: Seq<char>) -> Seq<char> {
        "Unknown RewardType variant: "@ + s
    }

    /// The name of the value (its displayed form).
    pub fn to_string(&self) -> (s: String)
        ensures
            s@ == self.name(),
    {
        match self {
            RewardType::Recognition => String::from_str("recognition"),
            RewardType::Bonus => String::from_str("bonus"),
            RewardType::Gift => String::from_str("gift"),
            RewardType::LeaveCredit => String::from_str("leave_credit"),
            RewardType::Certificate => String::from_str("certificate"),
        }
    }

    /// Parses an already lower-cased name; `given` is the text as it was
    /// given, quoted in the error.
    pub fn from_lowercased(lowered: &str, given: &str) -> (r: Result<RewardType, String>)
        ensures
            match RewardType::from_name(lowered@) {
                Some(v) => r == Ok::<RewardType, String>(v),
                None => r matches Err(msg) && msg@ == RewardType::unknown_message(given@),
            },
    {
        if text_eq(lowered, "recognition") {
            Ok(RewardType::Recognition)
        } else if text_eq(lowered, "bonus") {
            Ok(RewardType::Bonus)
        } else if text_eq(lowered, "gift") {
            Ok(RewardType::Gift)
        } else if text_eq(lowered, "leave_credit") {
            Ok(RewardType::LeaveCredit)
        } else if text_eq(lowered, "certificate") {
            Ok(RewardType::Certificate)
        } else {
            Err(join2("Unknown RewardType variant: ", given))
        }
    }

    /// Parses a name, ignoring case (`str::to_lowercase` first). For an
    /// all-ASCII text that is the ASCII lower-case form.
    pub fn from_str(s: &str) -> (r: Result<RewardType, String>)
        ensures
            match RewardType::from_name(unicode_lowercase(s@)) {
                Some(v) => r == Ok::<RewardType, String>(v),
                None => r matches Err(msg) && msg@ == RewardType::unknown_message(s@),
            },
            all_ascii(s@) ==> match RewardType::from_name(ascii_lower(s@)) {
                Some(v) => r == Ok::<RewardType, String>(v),
                None => r matches Err(msg) && msg@ == RewardType::unknown_message(s@),
            },
    {
        let lowered = to_lowercase(s);
        RewardType::from_lowercased(lowered.as_str(), s)
    }

    /// The value a JSON text holds: a JSON string that is exactly its name.
    pub open spec fn json_value(text: Seq<char>) -> Option<RewardType> {
        match json_string_value(text) {
            Some(v) => RewardType::from_name(v),
            None => None,
        }
    }

    /// Reads a value from JSON text, as a function.
    pub open spec fn json_reader() -> spec_fn(Seq<char>) -> Option<RewardType> {
        |t: Seq<char>| RewardType::json_value(t)
    }

    /// Reads a value from JSON text: a JSON string holding its exact name.
    pub fn from_json(text: &str) -> (r: Option<RewardType>)
        ensures
            r == RewardType::json_value(text@),
    {
        match json_string(text) {
            Some(v) => match RewardType::from_lowercased(v.as_str(), v.as_str()) {
                Ok(x) => Some(x),
                Err(_) => None,
            },
            None => None,
        }
    }
}

impl Default for RewardType {
    fn default() -> (r: RewardType)
        ensures
            r == RewardType::Recognition,
    {
        RewardType::Recognition
    }
}

/// Parsing the displayed name of a value gives the value back, in any
/// letter case: the name is ASCII, its own lower-case form, and names
/// exactly this value.
pub proof fn lemma_reward_type_name_round_trip(v: RewardType)
    ensures
        all_ascii(v.name()),
        ascii_lower(v.name()) == v.name(),
        RewardType::from_name(v.name()) == Some(v),
{
    reveal_strlit("recognition");
    reveal_strlit("bonus");
    reveal_strlit("gift");
    reveal_strlit("leave_credit");
    reveal_strlit("certificate");
    assert(ascii_lower(v.name()) =~= v.name());
    match v {
        RewardType::Recognition => {
        }
        RewardType::Bonus => {
            assert("recognition"@.len() != "bonus"@.len());
        }
        RewardType::Gift => {
            assert("recognition"@.len() != "gift"@.len());
            assert("bonus"@.len() != "gift"@.len());
        }
        RewardType::LeaveCredit => {
            assert("recognition"@.len() != "leave_credit"@.len());
            assert("bonus"@.len() != "leave_credit"@.len());
            assert("gift"@.len() != "leave_credit"@.len());
        }
        RewardType::Certificate => {
            assert("recognition"@[0] != "certificate"@[0]);
            assert("bonus"@.len() != "certificate"@.len());
            assert("gift"@.len() != "certificate"@.len());
            assert("leave_credit"@.len() != "certificate"@.len());
        }
    }
}

/// Different values have different names.
pub proof fn lemma_reward_type_names_distinct(a: RewardType, b: RewardType)
    ensures
        a.name() == b.name() ==> a == b,
{
    lemma_reward_type_name_round_trip(a);
    lemma_reward_type_name_round_trip(b);
}

} // verus!
