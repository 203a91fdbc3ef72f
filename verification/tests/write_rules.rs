use performance::appraisal_status::AppraisalStatus;
use performance::goal_status::GoalStatus;
use performance::performance_events::PerformanceEvent;
use performance::performance_write_service::{
    check_new_goal, check_weight_cap, decide_cancel_cycle, decide_close_cycle, decide_close_gate,
    decide_close_goal, decide_enter_calibration, decide_finalise, decide_move_cycle,
    decide_open_cycle, decide_rate, decide_submit_manager, decide_submit_self, prepare_appraisal,
    prepare_cycle, weight_cap_verdict, AppraisalRow, CancelStep, CloseStep, CycleState,
    FinaliseStep, GoalRow, NewAppraisal, NewCycle, NewGoal, PerformanceError,
};
use performance::values::{Date, Decimal, Timestamp};

fn date(y: i32, m: u32, d: u32) -> Date {
    Date { year: y, month: m, day: d }
}

fn message(e: PerformanceError) -> String {
    e.to_string()
}

fn row(status: AppraisalStatus) -> AppraisalRow {
    AppraisalRow {
        id: 1,
        cycle_id: 2,
        employee_id: 3,
        reviewer_id: 4,
        status,
        self_review: None,
        manager_review: None,
        overall_rating: None,
        submitted_at: None,
        rated_at: None,
        deleted: false,
    }
}

#[test]
fn error_codes_and_statuses() {
    let db = PerformanceError::Db("down".to_string());
    assert_eq!(db.code(), "internal_error");
    assert_eq!(db.http_status(), 500);
    assert_eq!(db.to_string(), "db: down");
    let nf = PerformanceError::NotFound("appraisal");
    assert_eq!(nf.code(), "not_found");
    assert_eq!(nf.http_status(), 404);
    assert_eq!(nf.to_string(), "not found: appraisal");
    let st = PerformanceError::InvalidState("x".to_string());
    assert_eq!(st.code(), "invalid_state");
    assert_eq!(st.http_status(), 422);
    assert_eq!(st.to_string(), "invalid state: x");
    let inv = PerformanceError::Invalid("y".to_string());
    assert_eq!(inv.code(), "invalid_input");
    assert_eq!(inv.http_status(), 422);
    assert_eq!(inv.to_string(), "invalid input: y");
}

#[test]
fn new_cycle_checks() {
    let n = NewCycle { name: " \t\u{3000}".to_string(), cycle_type: None, period_start: date(2026, 1, 1), period_end: date(2026, 12, 31) };
    assert_eq!(message(prepare_cycle(n, 9).unwrap_err()), "invalid input: a cycle needs a name");
    let n = NewCycle { name: "FY26".to_string(), cycle_type: None, period_start: date(2026, 1, 1), period_end: date(2026, 1, 1) };
    assert_eq!(message(prepare_cycle(n, 9).unwrap_err()), "invalid input: period_end must be after period_start");
    let n = NewCycle { name: "FY26".to_string(), cycle_type: Some("annual".to_string()), period_start: date(2026, 1, 1), period_end: date(2026, 1, 2) };
    let r = prepare_cycle(n, 9).unwrap();
    assert_eq!(r.id, 9);
    assert_eq!(r.name, "FY26");
    assert_eq!(r.status, CycleState::Draft);
    assert!(!r.deleted);
}

#[test]
fn cycle_moves() {
    assert_eq!(decide_open_cycle(Some(CycleState::Draft)).unwrap(), CycleState::Open);
    assert_eq!(message(decide_open_cycle(None).unwrap_err()), "not found: appraisal cycle");
    assert_eq!(message(decide_open_cycle(Some(CycleState::Closed)).unwrap_err()), "invalid state: the cycle is closed, not draft");
    assert_eq!(decide_enter_calibration(Some(CycleState::Open)).unwrap(), CycleState::Calibration);
    assert_eq!(message(decide_enter_calibration(Some(CycleState::Draft)).unwrap_err()), "invalid state: the cycle is draft, not open");
    assert_eq!(decide_move_cycle(Some(CycleState::Open), CycleState::Open, CycleState::Cancelled).unwrap(), CycleState::Cancelled);
}

#[test]
fn closing_a_cycle() {
    assert_eq!(decide_close_cycle(Some(CycleState::Closed)).unwrap(), CloseStep::AlreadyClosed);
    assert_eq!(decide_close_cycle(Some(CycleState::Calibration)).unwrap(), CloseStep::CheckAppraisals);
    assert_eq!(message(decide_close_cycle(Some(CycleState::Open)).unwrap_err()), "invalid state: the cycle is open; only a calibration cycle closes");
    assert_eq!(message(decide_close_cycle(None).unwrap_err()), "not found: appraisal cycle");
    assert!(decide_close_gate(&vec![]).is_ok());
    assert!(decide_close_gate(&vec![AppraisalStatus::Finalized, AppraisalStatus::Finalized]).is_ok());
    let e = decide_close_gate(&vec![AppraisalStatus::Finalized, AppraisalStatus::Calibrated, AppraisalStatus::Draft]).unwrap_err();
    assert_eq!(e.to_string(), "invalid state: 2 appraisal(s) are not finalized — finalize each before closing the cycle");
    let many = vec![AppraisalStatus::Submitted; 12];
    assert_eq!(decide_close_gate(&many).unwrap_err().to_string(), "invalid state: 12 appraisal(s) are not finalized — finalize each before closing the cycle");
}

#[test]
fn cancelling_a_cycle() {
    for st in [CycleState::Draft, CycleState::Open, CycleState::Calibration] {
        assert_eq!(decide_cancel_cycle(Some(st)).unwrap(), CancelStep::Cancel);
    }
    assert_eq!(decide_cancel_cycle(Some(CycleState::Cancelled)).unwrap(), CancelStep::AlreadyCancelled);
    assert_eq!(message(decide_cancel_cycle(Some(CycleState::Closed)).unwrap_err()), "invalid state: a closed cycle is history — it cannot be cancelled");
    assert_eq!(message(decide_cancel_cycle(None).unwrap_err()), "not found: appraisal cycle");
}

#[test]
fn enrolment() {
    let n = NewAppraisal { cycle_id: 2, employee_id: 3, reviewer_id: 4 };
    let r = prepare_appraisal(&n, 1, Some((CycleState::Open, false)), false).unwrap();
    assert_eq!(r.status, AppraisalStatus::Draft);
    assert_eq!((r.id, r.cycle_id, r.employee_id, r.reviewer_id), (1, 2, 3, 4));
    assert_eq!(message(prepare_appraisal(&n, 1, Some((CycleState::Open, false)), true).unwrap_err()), "invalid input: this employee already has an appraisal in this cycle");
    // An open cycle that is soft-deleted refuses, and the store's answer reads as enrolled.
    assert_eq!(message(prepare_appraisal(&n, 1, Some((CycleState::Open, true)), false).unwrap_err()), "invalid input: this employee already has an appraisal in this cycle");
    assert_eq!(message(prepare_appraisal(&n, 1, Some((CycleState::Calibration, false)), false).unwrap_err()), "invalid state: the cycle is calibration; appraisals enroll only while it is open");
    assert_eq!(message(prepare_appraisal(&n, 1, None, false).unwrap_err()), "not found: appraisal cycle");
}

#[test]
fn self_and_manager_steps() {
    let now = Timestamp { secs: 1_800_000_000, nanos: 5 };
    let a = row(AppraisalStatus::Draft);
    let b = decide_submit_self(Some(&a), 3, "{\"q\":1}".to_string(), now).unwrap();
    assert_eq!(b.status, AppraisalStatus::SelfReview);
    assert_eq!(b.self_review.as_deref(), Some("{\"q\":1}"));
    assert_eq!(b.submitted_at, Some(now));
    let refusal = "invalid state: only your own draft appraisal can take a self review";
    assert_eq!(message(decide_submit_self(Some(&a), 99, "{}".to_string(), now).unwrap_err()), refusal);
    assert_eq!(message(decide_submit_self(Some(&b), 3, "{}".to_string(), now).unwrap_err()), refusal);
    assert_eq!(message(decide_submit_self(None, 3, "{}".to_string(), now).unwrap_err()), refusal);
    let mut gone = row(AppraisalStatus::Draft);
    gone.deleted = true;
    assert_eq!(message(decide_submit_self(Some(&gone), 3, "{}".to_string(), now).unwrap_err()), refusal);

    let c = decide_submit_manager(Some(&b), 4, "{\"m\":2}".to_string()).unwrap();
    assert_eq!(c.status, AppraisalStatus::Submitted);
    assert_eq!(c.manager_review.as_deref(), Some("{\"m\":2}"));
    let refusal = "invalid state: only your assigned appraisal, after the self step, takes a manager review";
    assert_eq!(message(decide_submit_manager(Some(&a), 4, "{}".to_string()).unwrap_err()), refusal);
    assert_eq!(message(decide_submit_manager(Some(&b), 3, "{}".to_string()).unwrap_err()), refusal);
}

#[test]
fn rating() {
    let now = Timestamp { secs: 10, nanos: 0 };
    let a = row(AppraisalStatus::Submitted);
    let good = Decimal::new(45, 1).unwrap();
    let r = decide_rate(good, Some(&a), Some(CycleState::Calibration), now).unwrap();
    assert_eq!(r.status, AppraisalStatus::Calibrated);
    assert_eq!(r.overall_rating.unwrap().mantissa(), 45);
    assert_eq!(r.rated_at, Some(now));
    let neg = Decimal::new(-1, 2).unwrap();
    assert_eq!(message(decide_rate(neg, Some(&a), Some(CycleState::Calibration), now).unwrap_err()), "invalid input: the rating must be non-negative");
    assert!(decide_rate(Decimal::zero(), Some(&a), Some(CycleState::Calibration), now).is_ok());
    let refusal = "invalid state: only a submitted appraisal, in a calibration cycle, takes a rating";
    assert_eq!(message(decide_rate(good, Some(&a), Some(CycleState::Open), now).unwrap_err()), refusal);
    assert_eq!(message(decide_rate(good, Some(&row(AppraisalStatus::Calibrated)), Some(CycleState::Calibration), now).unwrap_err()), refusal);
    assert_eq!(message(decide_rate(good, None, None, now).unwrap_err()), refusal);
}

#[test]
fn finalising() {
    let mut a = row(AppraisalStatus::Calibrated);
    a.overall_rating = Decimal::new(3, 0);
    match decide_finalise(Some(&a)).unwrap() {
        FinaliseStep::Finalise(PerformanceEvent::AppraisalFinalised { appraisal_id, employee_id, rating }) => {
            assert_eq!((appraisal_id, employee_id), (1, 3));
            assert_eq!(rating.unwrap().mantissa(), 3);
        },
        _ => panic!("expected a finalisation"),
    }
    assert!(matches!(decide_finalise(Some(&row(AppraisalStatus::Finalized))).unwrap(), FinaliseStep::AlreadyFinalized));
    assert_eq!(message(decide_finalise(Some(&row(AppraisalStatus::Submitted))).unwrap_err()), "invalid state: only a calibrated appraisal finalises");
    assert_eq!(message(decide_finalise(None).unwrap_err()), "not found: appraisal");
    a.deleted = true;
    assert_eq!(message(decide_finalise(Some(&a)).unwrap_err()), "not found: appraisal");
}

#[test]
fn goals() {
    let g = NewGoal { employee_id: 3, cycle_id: None, title: "  ".to_string(), weight: Decimal::new(10, 0).unwrap() };
    assert_eq!(message(check_new_goal(&g).unwrap_err()), "invalid input: a goal needs a title");
    let g = NewGoal { employee_id: 3, cycle_id: None, title: "Ship".to_string(), weight: Decimal::zero() };
    assert_eq!(message(check_new_goal(&g).unwrap_err()), "invalid input: a goal's weight must be positive");
    let g = NewGoal { employee_id: 3, cycle_id: None, title: "Ship".to_string(), weight: Decimal::new(1, 1).unwrap() };
    assert!(check_new_goal(&g).is_ok());

    let total = Decimal::new(6000, 2).unwrap();
    assert!(check_weight_cap(&total, &Decimal::new(40, 0).unwrap()).unwrap().is_ok());
    let e = check_weight_cap(&total, &Decimal::new(405, 1).unwrap()).unwrap().unwrap_err();
    assert_eq!(e.to_string(), "invalid input: the employee's goal weights would sum to 100.50 — the cap is 100");
    let max = Decimal::new(79228162514264337593543950335, 0).unwrap();
    assert!(check_weight_cap(&max, &max).is_none());
    assert!(weight_cap_verdict(&Decimal::new(100, 0).unwrap()).is_ok());
    assert_eq!(weight_cap_verdict(&Decimal::new(101, 0).unwrap()).unwrap_err().to_string(), "invalid input: the employee's goal weights would sum to 101 — the cap is 100");

    let open = GoalRow { id: 7, employee_id: 3, cycle_id: None, title: "Ship".to_string(), weight: None, status: GoalStatus::Active, deleted: false };
    assert_eq!(decide_close_goal(Some(&open), true).unwrap().status, GoalStatus::Achieved);
    assert_eq!(decide_close_goal(Some(&open), false).unwrap().status, GoalStatus::Missed);
    let done = GoalRow { status: GoalStatus::Missed, ..open.clone() };
    assert_eq!(message(decide_close_goal(Some(&done), true).unwrap_err()), "invalid state: only a draft or active goal closes");
    assert_eq!(message(decide_close_goal(None, true).unwrap_err()), "invalid state: only a draft or active goal closes");
}
