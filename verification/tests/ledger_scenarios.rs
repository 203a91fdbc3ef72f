use performance::appraisal_status::AppraisalStatus;
use performance::goal_status::GoalStatus;
use performance::ledger::PerformanceLedger;
use performance::performance_events::PerformanceEvent;
use performance::performance_write_service::{CycleState, NewAppraisal, NewCycle, NewGoal, PerformanceError};
use performance::values::{Date, Decimal, Timestamp};

const CYCLE: u128 = 100;
const EMP_A: u128 = 1;
const EMP_B: u128 = 2;
const MANAGER: u128 = 9;

fn now() -> Timestamp {
    Timestamp { secs: 1_790_000_000, nanos: 0 }
}

fn text(e: PerformanceError) -> String {
    e.to_string()
}

fn cycle() -> NewCycle {
    NewCycle {
        name: "FY26".to_string(),
        cycle_type: Some("annual".to_string()),
        period_start: Date { year: 2026, month: 1, day: 1 },
        period_end: Date { year: 2026, month: 12, day: 31 },
    }
}

fn enroll(l: &mut PerformanceLedger, id: u128, employee: u128) {
    l.create_appraisal(NewAppraisal { cycle_id: CYCLE, employee_id: employee, reviewer_id: MANAGER }, id).unwrap();
}

/// Takes an enrolled appraisal through the self and manager steps.
fn submit(l: &mut PerformanceLedger, id: u128, employee: u128) {
    l.submit_self(id, employee, "{\"self\":true}".to_string(), now()).unwrap();
    l.submit_manager(id, MANAGER, "{\"manager\":true}".to_string()).unwrap();
}

#[test]
fn a_cycle_closes_only_when_every_appraisal_is_finalized() {
    let mut l = PerformanceLedger::new();
    assert_eq!(l.create_cycle(cycle(), CYCLE).unwrap(), CYCLE);
    l.open_cycle(CYCLE).unwrap();
    enroll(&mut l, 10, EMP_A);
    enroll(&mut l, 11, EMP_B);
    submit(&mut l, 10, EMP_A);
    submit(&mut l, 11, EMP_B);
    l.enter_calibration(CYCLE).unwrap();
    l.rate(10, Decimal::new(4, 0).unwrap(), now()).unwrap();
    l.rate(11, Decimal::new(35, 1).unwrap(), now()).unwrap();
    l.finalise_appraisal(10).unwrap();
    // Finalising again changes nothing and announces nothing.
    l.finalise_appraisal(10).unwrap();
    assert_eq!(l.events().len(), 1);

    let e = l.close_cycle(CYCLE).unwrap_err();
    assert_eq!(text(e), "invalid state: 1 appraisal(s) are not finalized — finalize each before closing the cycle");
    assert_eq!(l.cycle(CYCLE).unwrap().status, CycleState::Calibration);

    l.finalise_appraisal(11).unwrap();
    l.close_cycle(CYCLE).unwrap();
    assert_eq!(l.cycle(CYCLE).unwrap().status, CycleState::Closed);
    // Idempotent.
    l.close_cycle(CYCLE).unwrap();

    let events = l.events();
    assert_eq!(events.len(), 3);
    match events[0] {
        PerformanceEvent::AppraisalFinalised { appraisal_id, employee_id, rating } => {
            assert_eq!((appraisal_id, employee_id), (10, EMP_A));
            assert_eq!(rating.unwrap().mantissa(), 4);
        },
        _ => panic!("expected the first finalisation"),
    }
    assert!(matches!(events[1], PerformanceEvent::AppraisalFinalised { appraisal_id: 11, .. }));
    assert!(matches!(events[2], PerformanceEvent::CycleClosed { cycle_id: CYCLE }));
}

#[test]
fn a_closed_cycle_is_history() {
    let mut l = PerformanceLedger::new();
    l.create_cycle(cycle(), CYCLE).unwrap();
    l.open_cycle(CYCLE).unwrap();
    l.enter_calibration(CYCLE).unwrap();
    l.close_cycle(CYCLE).unwrap();
    assert_eq!(text(l.cancel_cycle(CYCLE).unwrap_err()), "invalid state: a closed cycle is history — it cannot be cancelled");
    let e = l.create_appraisal(NewAppraisal { cycle_id: CYCLE, employee_id: EMP_A, reviewer_id: MANAGER }, 10).unwrap_err();
    assert_eq!(text(e), "invalid state: the cycle is closed; appraisals enroll only while it is open");
    assert_eq!(text(l.open_cycle(CYCLE).unwrap_err()), "invalid state: the cycle is closed, not draft");
}

#[test]
fn cancel_is_reachable_before_close() {
    for steps in 0..3 {
        let mut l = PerformanceLedger::new();
        l.create_cycle(cycle(), CYCLE).unwrap();
        if steps >= 1 {
            l.open_cycle(CYCLE).unwrap();
        }
        if steps >= 2 {
            l.enter_calibration(CYCLE).unwrap();
        }
        l.cancel_cycle(CYCLE).unwrap();
        assert_eq!(l.cycle(CYCLE).unwrap().status, CycleState::Cancelled);
        l.cancel_cycle(CYCLE).unwrap();
        assert_eq!(text(l.close_cycle(CYCLE).unwrap_err()), "invalid state: the cycle is cancelled; only a calibration cycle closes");
    }
    let mut l = PerformanceLedger::new();
    assert_eq!(text(l.cancel_cycle(CYCLE).unwrap_err()), "not found: appraisal cycle");
}

#[test]
fn enrolment_rules() {
    let mut l = PerformanceLedger::new();
    let e = l.create_appraisal(NewAppraisal { cycle_id: CYCLE, employee_id: EMP_A, reviewer_id: MANAGER }, 10).unwrap_err();
    assert_eq!(text(e), "not found: appraisal cycle");
    l.create_cycle(cycle(), CYCLE).unwrap();
    let e = l.create_appraisal(NewAppraisal { cycle_id: CYCLE, employee_id: EMP_A, reviewer_id: MANAGER }, 10).unwrap_err();
    assert_eq!(text(e), "invalid state: the cycle is draft; appraisals enroll only while it is open");
    l.open_cycle(CYCLE).unwrap();
    enroll(&mut l, 10, EMP_A);
    let e = l.create_appraisal(NewAppraisal { cycle_id: CYCLE, employee_id: EMP_A, reviewer_id: MANAGER }, 12).unwrap_err();
    assert_eq!(text(e), "invalid input: this employee already has an appraisal in this cycle");
    let e = l.create_appraisal(NewAppraisal { cycle_id: CYCLE, employee_id: EMP_B, reviewer_id: MANAGER }, 10).unwrap_err();
    assert_eq!(text(e), "db: duplicate key");
    assert_eq!(l.appraisal(10).unwrap().status, AppraisalStatus::Draft);
    assert!(l.appraisal(12).is_none());
    assert_eq!(text(l.create_cycle(cycle(), CYCLE).unwrap_err()), "db: duplicate key");
}

#[test]
fn steps_in_order_only() {
    let mut l = PerformanceLedger::new();
    l.create_cycle(cycle(), CYCLE).unwrap();
    l.open_cycle(CYCLE).unwrap();
    enroll(&mut l, 10, EMP_A);
    // The manager cannot go first.
    assert!(l.submit_manager(10, MANAGER, "{}".to_string()).is_err());
    // Only the appraisal's own employee takes the self step.
    assert!(l.submit_self(10, EMP_B, "{}".to_string(), now()).is_err());
    submit(&mut l, 10, EMP_A);
    // Rating needs the cycle in calibration.
    assert_eq!(
        text(l.rate(10, Decimal::new(3, 0).unwrap(), now()).unwrap_err()),
        "invalid state: only a submitted appraisal, in a calibration cycle, takes a rating"
    );
    assert_eq!(text(l.finalise_appraisal(10).unwrap_err()), "invalid state: only a calibrated appraisal finalises");
    l.enter_calibration(CYCLE).unwrap();
    assert_eq!(text(l.rate(10, Decimal::new(-3, 0).unwrap(), now()).unwrap_err()), "invalid input: the rating must be non-negative");
    l.rate(10, Decimal::new(3, 0).unwrap(), now()).unwrap();
    l.finalise_appraisal(10).unwrap();
    // A finalized appraisal no longer changes, and finalising again is a no-op.
    assert!(l.rate(10, Decimal::new(5, 0).unwrap(), now()).is_err());
    l.finalise_appraisal(10).unwrap();
    let a = l.appraisal(10).unwrap();
    assert_eq!(a.status, AppraisalStatus::Finalized);
    assert_eq!(a.overall_rating.unwrap().mantissa(), 3);
    assert_eq!(l.events().len(), 1);
    assert_eq!(text(l.finalise_appraisal(77).unwrap_err()), "not found: appraisal");
}

#[test]
fn goal_weight_cap() {
    let mut l = PerformanceLedger::new();
    let g = |w: i128, s: u32| NewGoal { employee_id: EMP_A, cycle_id: Some(CYCLE), title: "Ship".to_string(), weight: Decimal::new(w, s).unwrap() };
    l.create_goal(g(60, 0), 1).unwrap();
    l.create_goal(g(3999, 2), 2).unwrap();
    let e = l.create_goal(g(2, 2), 3).unwrap_err();
    assert_eq!(text(e), "invalid input: the employee's goal weights would sum to 100.01 — the cap is 100");
    l.create_goal(g(1, 2), 3).unwrap();
    assert_eq!(l.goal(3).unwrap().status, GoalStatus::Active);
    // Another cycle, or no cycle, is a separate budget.
    l.create_goal(NewGoal { employee_id: EMP_A, cycle_id: None, title: "Learn".to_string(), weight: Decimal::new(100, 0).unwrap() }, 4).unwrap();
    // A closed goal no longer counts.
    l.close_goal(1, true).unwrap();
    assert_eq!(l.goal(1).unwrap().status, GoalStatus::Achieved);
    l.create_goal(g(60, 0), 5).unwrap();
    assert_eq!(text(l.close_goal(1, false).unwrap_err()), "invalid state: only a draft or active goal closes");
    assert_eq!(text(l.create_goal(g(0, 0), 6).unwrap_err()), "invalid input: a goal's weight must be positive");
}
