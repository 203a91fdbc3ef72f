use performance::appraisal::{Appraisal, AppraisalId};
use performance::appraisal_cycle::AppraisalCycle;
use performance::appraisal_status::AppraisalStatus;
use performance::common::Entity;
use performance::cycle_status::CycleStatus;
use performance::feedback::Feedback;
use performance::feedback_relationship::FeedbackRelationship;
use performance::goal::Goal;
use performance::goal_status::GoalStatus;
use performance::reward::Reward;
use performance::reward_type::RewardType;
use performance::talent_matrix_entry::TalentMatrixEntry;
use performance::values::{Date, Decimal, Timestamp};

fn patch(pairs: &[(&str, &str)]) -> Vec<(String, String)> {
    pairs.iter().map(|(k, v)| (k.to_string(), v.to_string())).collect()
}

const ID_TEXT: &str = "67e55044-10b1-426f-9247-bb680e5fe0c8";
const ID: u128 = 0x67e55044_10b1_426f_9247_bb680e5fe0c8;

#[test]
fn appraisal_builder_and_accessors() {
    assert_eq!(Appraisal::builder().build().unwrap_err(), "employee_id is required");
    assert_eq!(Appraisal::builder().employee_id(1).build().unwrap_err(), "cycle_id is required");
    assert_eq!(Appraisal::builder().employee_id(1).cycle_id(2).build().unwrap_err(), "reviewer_id is required");
    let a = Appraisal::builder().employee_id(1).cycle_id(2).reviewer_id(3).build().unwrap();
    assert_eq!(a.status, AppraisalStatus::Draft);
    assert!(a.overall_rating.is_none());
    assert!(a.is_active());
    assert!(!a.is_deleted());
    assert!(a.created_at().is_none());
    let rating = Decimal::new(42, 1).unwrap();
    let a = Appraisal::builder().employee_id(1).cycle_id(2).reviewer_id(3).status(AppraisalStatus::Submitted).overall_rating(rating).build().unwrap();
    assert_eq!(*a.status(), AppraisalStatus::Submitted);
    assert_eq!(a.overall_rating.unwrap().mantissa(), 42);
    assert_eq!(a.typed_id(), AppraisalId(a.id));
    assert_eq!(*a.entity_id(), a.id);
    assert_eq!(Appraisal::entity_type(), "Appraisal");
    let t = Timestamp { secs: 5, nanos: 6 };
    let a = a.with_submitted_at(t);
    assert_eq!(a.submitted_at, Some(t));
}

#[test]
fn appraisal_patch() {
    let mut a = Appraisal::new(1, 2, 3, AppraisalStatus::Draft);
    let id = a.id;
    a.apply_patch(patch(&[
        ("employee_id", "\"67e55044-10b1-426f-9247-bb680e5fe0c8\""),
        ("status", "\"finalized\""),
        ("overall_rating", "\"3.75\""),
        ("reviewer_id", "17"),
        ("submitted_at", "\"2026-05-01T10:00:00Z\""),
        ("unknown", "\"x\""),
        ("id", "\"67e55044-10b1-426f-9247-bb680e5fe0c8\""),
    ]));
    assert_eq!(a.id, id);
    assert_eq!(a.employee_id, ID);
    assert_eq!(a.status, AppraisalStatus::Finalized);
    let r = a.overall_rating.unwrap();
    assert_eq!((r.mantissa(), r.scale()), (375, 2));
    assert_eq!(a.reviewer_id, 3);
    assert_eq!(a.submitted_at, Some(Timestamp { secs: 1_777_629_600, nanos: 0 }));
    a.apply_patch(patch(&[("overall_rating", "null"), ("submitted_at", "null"), ("status", "\"Finalized\"")]));
    assert!(a.overall_rating.is_none());
    assert!(a.submitted_at.is_none());
    assert_eq!(a.status, AppraisalStatus::Finalized);
}

#[test]
fn persistent_entity_fields() {
    let mut a = Appraisal::new(1, 2, 3, AppraisalStatus::Draft);
    let before = a.id;
    a.set_entity_id("nonsense");
    assert_eq!(a.id, before);
    a.set_entity_id(ID_TEXT);
    assert_eq!(a.id, ID);
    assert_eq!(a.entity_id_text(), ID_TEXT);
    let t = Timestamp { secs: 1, nanos: 2 };
    a.set_created_at(t);
    a.set_updated_at(t);
    a.set_deleted_at(Some(t));
    assert_eq!(a.created_at(), Some(&t));
    assert_eq!(a.updated_at(), Some(&t));
    assert!(a.is_deleted());
    a.set_deleted_at(None);
    assert!(a.is_active());
    let cols = Appraisal::column_types();
    assert_eq!(cols.len(), 5);
    assert_eq!(cols[4], ("status".to_string(), "appraisal_status".to_string()));
    assert!(Appraisal::search_fields().is_empty());
}

#[test]
fn cycle_records() {
    let start = Date { year: 2026, month: 1, day: 1 };
    let end = Date { year: 2026, month: 6, day: 30 };
    assert_eq!(AppraisalCycle::builder().build().unwrap_err(), "name is required");
    assert_eq!(AppraisalCycle::builder().name("H1".to_string()).build().unwrap_err(), "period_start is required");
    let c = AppraisalCycle::builder().name("H1".to_string()).period_start(start).period_end(end).build().unwrap();
    assert_eq!(c.status, CycleStatus::Draft);
    let mut c = c.with_cycle_type("mid-year".to_string());
    assert_eq!(c.cycle_type.as_deref(), Some("mid-year"));
    c.apply_patch(patch(&[("name", "\"H1 2026\""), ("period_end", "\"2026-07-31\""), ("cycle_type", "null"), ("status", "\"open\""), ("period_start", "\"not a date\"")]));
    assert_eq!(c.name, "H1 2026");
    assert_eq!(c.period_end, Date { year: 2026, month: 7, day: 31 });
    assert_eq!(c.period_start, start);
    assert!(c.cycle_type.is_none());
    assert_eq!(c.status, CycleStatus::Open);
    c.apply_patch(patch(&[("status", "\"cancelled\"")]));
    assert_eq!(c.status, CycleStatus::Cancelled);
    assert_eq!(
        AppraisalCycle::builder().name("Q1".to_string()).period_start(start).build().unwrap_err(),
        "period_end is required"
    );
    assert_eq!(AppraisalCycle::search_fields(), &["name"]);
    assert_eq!(AppraisalCycle::column_types().len(), 2);
}

#[test]
fn feedback_records() {
    let f = Feedback::builder().from_employee_id(1).to_employee_id(2).content("Great".to_string()).build().unwrap();
    assert!(!f.is_anonymous);
    assert_eq!(f.relationship, FeedbackRelationship::Peer);
    assert!(f.cycle_id.is_none());
    assert_eq!(Feedback::builder().from_employee_id(1).build().unwrap_err(), "to_employee_id is required");
    let mut f = Feedback::new(1, 2, "ok".to_string(), true, FeedbackRelationship::Manager).with_cycle_id(5);
    assert_eq!(f.cycle_id, Some(5));
    f.apply_patch(patch(&[("is_anonymous", "false"), ("relationship", "\"direct_report\""), ("content", "\"better\""), ("cycle_id", "null")]));
    assert!(!f.is_anonymous);
    assert_eq!(f.relationship, FeedbackRelationship::DirectReport);
    assert_eq!(f.content, "better");
    assert!(f.cycle_id.is_none());
    assert_eq!(Feedback::column_types().len(), 5);
}

#[test]
fn goal_records() {
    let g = Goal::builder().company_id(1).employee_id(2).title("Ship".to_string()).build().unwrap();
    assert_eq!(g.status, GoalStatus::Draft);
    assert_eq!(Goal::builder().company_id(1).employee_id(2).build().unwrap_err(), "title is required");
    let mut g = Goal::new(1, 2, "Ship".to_string(), GoalStatus::Active)
        .with_weight(Decimal::new(25, 0).unwrap())
        .with_description("all of it".to_string())
        .with_parent_goal_id(9);
    assert_eq!(g.parent_goal_id, Some(9));
    g.apply_patch(patch(&[("progress", "0.5"), ("weight", "\"30\""), ("status", "\"achieved\""), ("title", "42")]));
    assert_eq!(g.weight.unwrap().mantissa(), 30);
    assert!(g.progress.is_some());
    assert_eq!(g.status, GoalStatus::Achieved);
    assert_eq!(g.title, "Ship");
    assert_eq!(Goal::company_field(), Some("company_id"));
    assert_eq!(Goal::column_types().len(), 6);
}

#[test]
fn reward_records() {
    let day = Date { year: 2026, month: 3, day: 8 };
    let r = Reward::builder().employee_id(1).title("Star".to_string()).awarded_at(day).build().unwrap();
    assert_eq!(r.reward_type, RewardType::Recognition);
    assert_eq!(Reward::builder().employee_id(1).title("Star".to_string()).build().unwrap_err(), "awarded_at is required");
    let mut r = Reward::new(1, RewardType::Bonus, "Q1".to_string(), day).with_amount(Decimal::new(50000, 2).unwrap()).with_awarded_by(7);
    r.apply_patch(patch(&[("awarded_at", "\"2026-03-09\""), ("reward_type", "\"gift\""), ("amount", "null"), ("payroll_component_id", "\"67e55044-10b1-426f-9247-bb680e5fe0c8\"")]));
    assert_eq!(r.awarded_at, Date { year: 2026, month: 3, day: 9 });
    assert_eq!(r.reward_type, RewardType::Gift);
    assert!(r.amount.is_none());
    assert_eq!(r.payroll_component_id, Some(ID));
    assert_eq!(r.awarded_by, Some(7));
}

#[test]
fn talent_matrix_records() {
    assert_eq!(TalentMatrixEntry::builder().employee_id(1).cycle_id(2).performance_score(3).build().unwrap_err(), "potential_score is required");
    let t = TalentMatrixEntry::builder().employee_id(1).cycle_id(2).performance_score(3).potential_score(2).build().unwrap();
    assert!(t.box_label.is_none());
    let mut t = t.with_box_label("Core".to_string());
    t.apply_patch(patch(&[("performance_score", "5"), ("potential_score", "\"high\""), ("box_label", "\"Star\""), ("performance_score", "4")]));
    assert_eq!(t.performance_score, 4);
    assert_eq!(t.potential_score, 2);
    assert_eq!(t.box_label.as_deref(), Some("Star"));
    assert_eq!(TalentMatrixEntry::entity_type(), "TalentMatrixEntry");
}
