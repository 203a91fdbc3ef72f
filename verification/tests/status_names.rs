use performance::appraisal_status::AppraisalStatus;
use performance::cycle_status::CycleStatus;
use performance::feedback_relationship::FeedbackRelationship;
use performance::goal_status::GoalStatus;
use performance::reward_type::RewardType;

#[test]
fn appraisal_status_names_round_trip() {
    let all = [
        AppraisalStatus::Draft,
        AppraisalStatus::SelfReview,
        AppraisalStatus::Submitted,
        AppraisalStatus::Calibrated,
        AppraisalStatus::Finalized,
    ];
    let names = ["draft", "self_review", "submitted", "calibrated", "finalized"];
    for (s, n) in all.iter().zip(names.iter()) {
        assert_eq!(s.to_string(), *n);
        assert_eq!(AppraisalStatus::from_str(n).unwrap(), *s);
        assert_eq!(AppraisalStatus::from_str(&n.to_uppercase()).unwrap(), *s);
    }
}

#[test]
fn cycle_status_names_round_trip() {
    let all = [
        CycleStatus::Draft,
        CycleStatus::Open,
        CycleStatus::Calibration,
        CycleStatus::Closed,
        CycleStatus::Cancelled,
    ];
    let names = ["draft", "open", "calibration", "closed", "cancelled"];
    for (s, n) in all.iter().zip(names.iter()) {
        assert_eq!(s.to_string(), *n);
        assert_eq!(CycleStatus::from_str(n).unwrap(), *s);
        assert_eq!(CycleStatus::from_str(&n.to_uppercase()).unwrap(), *s);
        assert_eq!(CycleStatus::from_json(&format!("\"{}\"", n)), Some(*s));
    }
}

#[test]
fn parsing_ignores_letter_case() {
    assert_eq!(CycleStatus::from_str("Calibration").unwrap(), CycleStatus::Calibration);
    assert_eq!(CycleStatus::from_str("CANCELLED").unwrap(), CycleStatus::Cancelled);
    assert_eq!(GoalStatus::from_str("ACHIEVED").unwrap(), GoalStatus::Achieved);
    assert_eq!(RewardType::from_str("Leave_Credit").unwrap(), RewardType::LeaveCredit);
    assert_eq!(FeedbackRelationship::from_str("Direct_Report").unwrap(), FeedbackRelationship::DirectReport);
}

#[test]
fn unknown_names_are_refused_with_the_given_text() {
    assert_eq!(CycleStatus::from_str("Archived").unwrap_err(), "Unknown CycleStatus variant: Archived");
    assert_eq!(AppraisalStatus::from_str("selfreview").unwrap_err(), "Unknown AppraisalStatus variant: selfreview");
    assert_eq!(GoalStatus::from_str("").unwrap_err(), "Unknown GoalStatus variant: ");
    assert_eq!(RewardType::from_str("cash").unwrap_err(), "Unknown RewardType variant: cash");
    assert_eq!(FeedbackRelationship::from_str("boss").unwrap_err(), "Unknown FeedbackRelationship variant: boss");
}

#[test]
fn non_ascii_lower_casing() {
    // The Kelvin sign lower-cases to an ASCII 'k'; no status name holds one,
    // so the text is still unknown, and the error quotes it as given.
    assert_eq!(GoalStatus::from_str("\u{212A}").unwrap_err(), "Unknown GoalStatus variant: \u{212A}");
    // 'İ' lower-cases to two characters.
    assert!(CycleStatus::from_str("OPEN\u{130}").is_err());
}

#[test]
fn every_name_displays() {
    assert_eq!(CycleStatus::Draft.to_string(), "draft");
    assert_eq!(CycleStatus::Open.to_string(), "open");
    assert_eq!(CycleStatus::Closed.to_string(), "closed");
    assert_eq!(CycleStatus::Cancelled.to_string(), "cancelled");
    assert_eq!(GoalStatus::Cancelled.to_string(), "cancelled");
    assert_eq!(GoalStatus::Missed.to_string(), "missed");
    assert_eq!(RewardType::Certificate.to_string(), "certificate");
    assert_eq!(RewardType::Gift.to_string(), "gift");
    assert_eq!(FeedbackRelationship::CrossFunctional.to_string(), "cross_functional");
    assert_eq!(FeedbackRelationship::Manager.to_string(), "manager");
}

#[test]
fn defaults() {
    assert_eq!(AppraisalStatus::default(), AppraisalStatus::Draft);
    assert_eq!(CycleStatus::default(), CycleStatus::Draft);
    assert_eq!(GoalStatus::default(), GoalStatus::Draft);
    assert_eq!(RewardType::default(), RewardType::Recognition);
    assert_eq!(FeedbackRelationship::default(), FeedbackRelationship::Peer);
}

#[test]
fn json_names_are_exact() {
    assert_eq!(AppraisalStatus::from_json("\"calibrated\""), Some(AppraisalStatus::Calibrated));
    assert_eq!(AppraisalStatus::from_json("\"Calibrated\""), None);
    assert_eq!(AppraisalStatus::from_json("calibrated"), None);
    assert_eq!(RewardType::from_json("\"bonus\""), Some(RewardType::Bonus));
    assert_eq!(FeedbackRelationship::from_json("3"), None);
}
