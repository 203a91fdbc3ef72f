//! The performance write path's rules: the cycle machine
//! (draft → open → calibration → closed, with cancelled reachable from any
//! state before closed), the appraisal machine (draft → self_review →
//! submitted → calibrated → finalized) and the goal rules. Each verb's
//! decisions are a function from what the store holds to the row to write,
//! the event to announce, or the error to answer.

use vstd::prelude::*;
use vstd::string::*;
use crate::appraisal_status::AppraisalStatus;
use crate::goal_status::GoalStatus;
use crate::performance_events::PerformanceEvent;
use crate::text::{is_blank, is_blank_text, text_eq};
use crate::values::{
    checked_add, decimal_digits, pow10, decimal_sum, decimal_text, decimal_to_text, u64_to_text, Date,
    Decimal, Timestamp, Uuid,
};

verus! {

/// An error of the write path.
#[derive(Debug)]
pub enum PerformanceError {
    /// The store failed.
    Db(String),
    /// The named thing does not exist.
    NotFound(&'static str),
    /// The thing is not in a state that allows the verb.
    InvalidState(String),
    /// The input is refused.
    Invalid(String),
}

/// A `PerformanceError` with its text as a sequence of characters.
pub enum ErrorView {
    Db(Seq<char>),
    NotFound(Seq<char>),
    InvalidState(Seq<char>),
    Invalid(Seq<char>),
}

impl View for PerformanceError {
    type V = ErrorView;

    open spec fn view(&self) -> ErrorView {
        match self {
            PerformanceError::Db(s) => ErrorView::Db(s@),
            PerformanceError::NotFound(s) => ErrorView::NotFound(s@),
            PerformanceError::InvalidState(s) => ErrorView::InvalidState(s@),
            PerformanceError::Invalid(s) => ErrorView::Invalid(s@),
        }
    }
}

/// A result with its error taken by its view.
pub open spec fn outcome<T>(r: Result<T, PerformanceError>) -> Result<T, ErrorView> {
    match r {
        Ok(v) => Ok(v),
        Err(e) => Err(e@),
    }
}

impl ErrorView {
    /// The machine-readable error code.
    pub open spec fn code(self) -> Seq<char> {
        match self {
            ErrorView::Db(_) => "internal_error"@,
            ErrorView::NotFound(_) => "not_found"@,
            ErrorView::InvalidState(_) => "invalid_state"@,
            ErrorView::Invalid(_) => "invalid_input"@,
        }
    }

    /// The HTTP status that answers the error.
    pub open spec fn http_status(self) -> u16 {
        match self {
            ErrorView::Db(_) => 500,
            ErrorView::NotFound(_) => 404,
            _ => 422,
        }
    }

    /// The displayed message.
    pub open spec fn message(self) -> Seq<char> {
        match self {
            ErrorView::Db(s) => "db: "@ + s,
            ErrorView::NotFound(s) => "not found: "@ + s,
            ErrorView::InvalidState(s) => "invalid state: "@ + s,
            ErrorView::Invalid(s) => "invalid input: "@ + s,
        }
    }
}

impl PerformanceError {
    /// The machine-readable error code.
    pub fn code(&self) -> (r: &'static str)
        ensures
            r@ == self@.code(),
    {
        match self {
            PerformanceError::Db(_) => "internal_error",
            PerformanceError::NotFound(_) => "not_found",
            PerformanceError::InvalidState(_) => "invalid_state",
            PerformanceError::Invalid(_) => "invalid_input",
        }
    }

    /// The HTTP status that answers the error.
    pub fn http_status(&self) -> (r: u16)
        ensures
            r == self@.http_status(),
    {
        match self {
            PerformanceError::Db(_) => 500,
            PerformanceError::NotFound(_) => 404,
            _ => 422,
        }
    }

    /// The displayed message.
    pub fn to_string(&self) -> (r: String)
        ensures
            r@ == self@.message(),
    {
        match self {
            PerformanceError::Db(s) => {
                let mut m = String::from_str("db: ");
                m.append(s.as_str());
                m
            },
            PerformanceError::NotFound(s) => {
                let mut m = String::from_str("not found: ");
                m.append(s);
                m
            },
            PerformanceError::InvalidState(s) => {
                let mut m = String::from_str("invalid state: ");
                m.append(s.as_str());
                m
            },
            PerformanceError::Invalid(s) => {
                let mut m = String::from_str("invalid input: ");
                m.append(s.as_str());
                m
            },
        }
    }
}

/// The status of a cycle as the store holds it.
#[derive(Debug, Clone, Copy, PartialEq, Eq, Structural)]
pub enum CycleState {
    Draft,
    Open,
    Calibration,
    Closed,
    Cancelled,
}

impl CycleState {
    /// The stored name of the status.
    pub open spec fn name(self) -> Seq<char> {
        match self {
            CycleState::Draft => "draft"@,
            CycleState::Open => "open"@,
            CycleState::Calibration => "calibration"@,
            CycleState::Closed => "closed"@,
            CycleState::Cancelled => "cancelled"@,
        }
    }

    /// The status whose stored name is `s`, if any.
    pub open spec fn from_name(s: Seq<char>) -> Option<CycleState> {
        if s == "draft"@ {
            Some(CycleState::Draft)
        } else if s == "open"@ {
            Some(CycleState::Open)
        } else if s == "calibration"@ {
            Some(CycleState::Calibration)
        } else if s == "closed"@ {
            Some(CycleState::Closed)
        } else if s == "cancelled"@ {
            Some(CycleState::Cancelled)
        } else {
            None
        }
    }

    /// Reads a stored status name.
    pub fn parse(s: &str) -> (r: Option<CycleState>)
        ensures
            r == CycleState::from_name(s@),
    {
        if text_eq(s, "draft") {
            Some(CycleState::Draft)
        } else if text_eq(s, "open") {
            Some(CycleState::Open)
        } else if text_eq(s, "calibration") {
            Some(CycleState::Calibration)
        } else if text_eq(s, "closed") {
            Some(CycleState::Closed)
        } else if text_eq(s, "cancelled") {
            Some(CycleState::Cancelled)
        } else {
            None
        }
    }

    /// The stored name of the status.
    pub fn to_string(&self) -> (r: String)
        ensures
            r@ == self.name(),
    {
        match self {
            CycleState::Draft => String::from_str("draft"),
            CycleState::Open => String::from_str("open"),
            CycleState::Calibration => String::from_str("calibration"),
            CycleState::Closed => String::from_str("closed"),
            CycleState::Cancelled => String::from_str("cancelled"),
        }
    }
}

/// Reading back the stored name of a status gives the status.
pub proof fn lemma_cycle_state_name_round_trip(v: CycleState)
    ensures
        CycleState::from_name(v.name()) == Some(v),
{
    reveal_strlit("draft");
    reveal_strlit("open");
    reveal_strlit("calibration");
    reveal_strlit("closed");
    reveal_strlit("cancelled");
    match v {
        CycleState::Draft => {},
        CycleState::Open => {
            assert("draft"@.len() != "open"@.len());
        },
        CycleState::Calibration => {
            assert("draft"@.len() != "calibration"@.len());
            assert("open"@.len() != "calibration"@.len());
        },
        CycleState::Closed => {
            assert("draft"@.len() != "closed"@.len());
            assert("open"@.len() != "closed"@.len());
            assert("calibration"@.len() != "closed"@.len());
        },
        CycleState::Cancelled => {
            assert("draft"@.len() != "cancelled"@.len());
            assert("open"@.len() != "cancelled"@.len());
            assert("calibration"@.len() != "cancelled"@.len());
            assert("closed"@.len() != "cancelled"@.len());
        },
    }
}

/// A new cycle.
pub struct NewCycle {
    pub name: String,
    /// Free-form kind label (annual / quarterly / mid-year).
    pub cycle_type: Option<String>,
    pub period_start: Date,
    pub period_end: Date,
}

/// A new appraisal (an employee enrolled in an open cycle).
pub struct NewAppraisal {
    pub cycle_id: Uuid,
    pub employee_id: Uuid,
    pub reviewer_id: Uuid,
}

/// A new goal.
pub struct NewGoal {
    pub employee_id: Uuid,
    pub cycle_id: Option<Uuid>,
    pub title: String,
    pub weight: Decimal,
}

/// A stored appraisal cycle.
#[derive(Debug)]
pub struct CycleRow {
    pub id: Uuid,
    pub name: String,
    pub cycle_type: Option<String>,
    pub period_start: Date,
    pub period_end: Date,
    pub status: CycleState,
    /// Soft-deleted.
    pub deleted: bool,
}

/// A stored appraisal.
#[derive(Debug)]
pub struct AppraisalRow {
    pub id: Uuid,
    pub cycle_id: Uuid,
    pub employee_id: Uuid,
    pub reviewer_id: Uuid,
    pub status: AppraisalStatus,
    /// The employee's self review (JSON text).
    pub self_review: Option<String>,
    /// The manager's assessment (JSON text).
    pub manager_review: Option<String>,
    pub overall_rating: Option<Decimal>,
    pub submitted_at: Option<Timestamp>,
    pub rated_at: Option<Timestamp>,
    /// Soft-deleted.
    pub deleted: bool,
}

/// A stored goal.
#[derive(Debug)]
pub struct GoalRow {
    pub id: Uuid,
    pub employee_id: Uuid,
    pub cycle_id: Option<Uuid>,
    pub title: String,
    pub weight: Option<Decimal>,
    pub status: GoalStatus,
    /// Soft-deleted.
    pub deleted: bool,
}

/// A copy of an optional text.
pub fn clone_opt_text(s: &Option<String>) -> (r: Option<String>)
    ensures
        r == *s,
{
    match s {
        Some(t) => Some(t.clone()),
        None => None,
    }
}

impl Clone for CycleRow {
    fn clone(&self) -> (r: CycleRow)
        ensures
            r == *self,
    {
        CycleRow {
            id: self.id,
            name: self.name.clone(),
            cycle_type: clone_opt_text(&self.cycle_type),
            period_start: self.period_start,
            period_end: self.period_end,
            status: self.status,
            deleted: self.deleted,
        }
    }
}

impl Clone for AppraisalRow {
    fn clone(&self) -> (r: AppraisalRow)
        ensures
            r == *self,
    {
        AppraisalRow {
            id: self.id,
            cycle_id: self.cycle_id,
            employee_id: self.employee_id,
            reviewer_id: self.reviewer_id,
            status: self.status,
            self_review: clone_opt_text(&self.self_review),
            manager_review: clone_opt_text(&self.manager_review),
            overall_rating: self.overall_rating,
            submitted_at: self.submitted_at,
            rated_at: self.rated_at,
            deleted: self.deleted,
        }
    }
}

impl Clone for GoalRow {
    fn clone(&self) -> (r: GoalRow)
        ensures
            r == *self,
    {
        GoalRow {
            id: self.id,
            employee_id: self.employee_id,
            cycle_id: self.cycle_id,
            title: self.title.clone(),
            weight: self.weight,
            status: self.status,
            deleted: self.deleted,
        }
    }
}

// ── Cycles ───────────────────────────────────────────────────────────────

/// The checks on a new cycle.
pub open spec fn spec_check_new_cycle(name: Seq<char>, start: Date, end: Date) -> Result<(), ErrorView> {
    if is_blank_text(name) {
        Err(ErrorView::Invalid("a cycle needs a name"@))
    } else if end.spec_on_or_before(start) {
        Err(ErrorView::Invalid("period_end must be after period_start"@))
    } else {
        Ok(())
    }
}

/// Checks a new cycle and gives the draft row to store under `id`.
pub fn prepare_cycle(n: NewCycle, id: Uuid) -> (r: Result<CycleRow, PerformanceError>)
    ensures
        match spec_check_new_cycle(n.name@, n.period_start, n.period_end) {
            Err(e) => r matches Err(f) && f@ == e,
            Ok(_) => r == Ok::<CycleRow, PerformanceError>(CycleRow {
                id,
                name: n.name,
                cycle_type: n.cycle_type,
                period_start: n.period_start,
                period_end: n.period_end,
                status: CycleState::Draft,
                deleted: false,
            }),
        },
{
    if is_blank(n.name.as_str()) {
        return Err(PerformanceError::Invalid(String::from_str("a cycle needs a name")));
    }
    if n.period_end.on_or_before(&n.period_start) {
        return Err(PerformanceError::Invalid(String::from_str("period_end must be after period_start")));
    }
    Ok(CycleRow {
        id,
        name: n.name,
        cycle_type: n.cycle_type,
        period_start: n.period_start,
        period_end: n.period_end,
        status: CycleState::Draft,
        deleted: false,
    })
}

/// Moving a cycle that is in `from` to `to`: the new status, or the error.
pub open spec fn spec_move_cycle(current: Option<CycleState>, from: CycleState, to: CycleState) -> Result<CycleState, ErrorView> {
    match current {
        None => Err(ErrorView::NotFound("appraisal cycle"@)),
        Some(s) => if s == from {
            Ok(to)
        } else {
            Err(ErrorView::InvalidState("the cycle is "@ + s.name() + ", not "@ + from.name()))
        },
    }
}

/// Moves a cycle (its stored status `current`, `None` when there is no such
/// cycle) from `from` to `to`.
pub fn decide_move_cycle(current: Option<CycleState>, from: CycleState, to: CycleState) -> (r: Result<CycleState, PerformanceError>)
    ensures
        outcome(r) == spec_move_cycle(current, from, to),
{
    match current {
        None => Err(PerformanceError::NotFound("appraisal cycle")),
        Some(s) => {
            if s == from {
                Ok(to)
            } else {
                let mut m = String::from_str("the cycle is ");
                m.append(s.to_string().as_str());
                m.append(", not ");
                m.append(from.to_string().as_str());
                Err(PerformanceError::InvalidState(m))
            }
        },
    }
}

/// Opens a draft cycle (appraisals may enroll).
pub fn decide_open_cycle(current: Option<CycleState>) -> (r: Result<CycleState, PerformanceError>)
    ensures
        outcome(r) == spec_move_cycle(current, CycleState::Draft, CycleState::Open),
{
    decide_move_cycle(current, CycleState::Draft, CycleState::Open)
}

/// Moves an open cycle into calibration.
pub fn decide_enter_calibration(current: Option<CycleState>) -> (r: Result<CycleState, PerformanceError>)
    ensures
        outcome(r) == spec_move_cycle(current, CycleState::Open, CycleState::Calibration),
{
    decide_move_cycle(current, CycleState::Open, CycleState::Calibration)
}

/// What closing a cycle does after reading its status.
#[derive(Debug, Clone, Copy, PartialEq, Eq, Structural)]
pub enum CloseStep {
    /// The cycle is closed already: nothing changes.
    AlreadyClosed,
    /// The cycle is in calibration: its appraisals decide.
    CheckAppraisals,
}

/// The first decision of closing a cycle, on its stored status.
pub open spec fn spec_close_cycle(current: Option<CycleState>) -> Result<CloseStep, ErrorView> {
    match current {
        None => Err(ErrorView::NotFound("appraisal cycle"@)),
        Some(CycleState::Closed) => Ok(CloseStep::AlreadyClosed),
        Some(CycleState::Calibration) => Ok(CloseStep::CheckAppraisals),
        Some(other) => Err(ErrorView::InvalidState("the cycle is "@ + other.name() + "; only a calibration cycle closes"@)),
    }
}

/// The first decision of closing a cycle, on its stored status.
pub fn decide_close_cycle(current: Option<CycleState>) -> (r: Result<CloseStep, PerformanceError>)
    ensures
        outcome(r) == spec_close_cycle(current),
{
    match current {
        None => Err(PerformanceError::NotFound("appraisal cycle")),
        Some(CycleState::Closed) => Ok(CloseStep::AlreadyClosed),
        Some(CycleState::Calibration) => Ok(CloseStep::CheckAppraisals),
        Some(other) => {
            let mut m = String::from_str("the cycle is ");
            m.append(other.to_string().as_str());
            m.append("; only a calibration cycle closes");
            Err(PerformanceError::InvalidState(m))
        },
    }
}

/// How many of the statuses are not finalized.
pub open spec fn unfinalised_count(s: Seq<AppraisalStatus>) -> nat
    decreases s.len(),
{
    if s.len() == 0 {
        0
    } else {
        unfinalised_count(s.drop_last()) + if s.last() == AppraisalStatus::Finalized { 0nat } else { 1nat }
    }
}

/// Every status is finalized.
pub open spec fn all_finalized(s: Seq<AppraisalStatus>) -> bool {
    forall|i: int| 0 <= i < s.len() ==> s[i] == AppraisalStatus::Finalized
}

/// No unfinalised appraisal is counted exactly when all are finalized.
pub proof fn lemma_unfinalised_count_zero(s: Seq<AppraisalStatus>)
    ensures
        (unfinalised_count(s) == 0) == all_finalized(s),
    decreases s.len(),
{
    if s.len() > 0 {
        lemma_unfinalised_count_zero(s.drop_last());
        if all_finalized(s) {
            assert(all_finalized(s.drop_last()));
        } else if unfinalised_count(s) == 0 {
            assert(s.last() == AppraisalStatus::Finalized);
            assert forall|i: int| 0 <= i < s.len() implies s[i] == AppraisalStatus::Finalized by {
                if i < s.len() - 1 {
                    assert(s.drop_last()[i] == s[i]);
                }
            }
        }
    }
}

/// The count never exceeds the number of statuses.
pub proof fn lemma_unfinalised_count_bound(s: Seq<AppraisalStatus>)
    ensures
        unfinalised_count(s) <= s.len(),
    decreases s.len(),
{
    if s.len() > 0 {
        lemma_unfinalised_count_bound(s.drop_last());
    }
}

/// The text refusing to close a cycle with `n` unfinalised appraisals.
pub open spec fn unfinalised_message(n: nat) -> Seq<char> {
    decimal_digits(n) + " appraisal(s) are not finalized — finalize each before closing the cycle"@
}

/// The rule that closes a cycle: given the statuses of the cycle's live
/// appraisals, it refuses while any of them is not finalized.
pub open spec fn spec_close_gate(statuses: Seq<AppraisalStatus>) -> Result<(), ErrorView> {
    if unfinalised_count(statuses) > 0 {
        Err(ErrorView::InvalidState(unfinalised_message(unfinalised_count(statuses))))
    } else {
        Ok(())
    }
}

/// The second decision of closing a cycle: given the statuses of the cycle's
/// live appraisals, refuse while any of them is not finalized.
pub fn decide_close_gate(statuses: &Vec<AppraisalStatus>) -> (r: Result<(), PerformanceError>)
    ensures
        outcome(r) == spec_close_gate(statuses@),
        r is Ok <==> all_finalized(statuses@),
{
    let mut n: u64 = 0;
    let mut i: usize = 0;
    while i < statuses.len()
        invariant
            i <= statuses.len(),
            n == unfinalised_count(statuses@.take(i as int)),
            n <= i,
            statuses.len() <= usize::MAX,
        decreases statuses.len() - i,
    {
        proof {
            assert(statuses@.take(i + 1).drop_last() =~= statuses@.take(i as int));
            lemma_unfinalised_count_bound(statuses@.take(i as int));
        }
        if statuses[i] != AppraisalStatus::Finalized {
            n = n + 1;
        }
        i = i + 1;
    }
    proof {
        assert(statuses@.take(statuses.len() as int) =~= statuses@);
        lemma_unfinalised_count_zero(statuses@);
    }
    if n > 0 {
        let mut m = u64_to_text(n);
        m.append(" appraisal(s) are not finalized — finalize each before closing the cycle");
        Err(PerformanceError::InvalidState(m))
    } else {
        Ok(())
    }
}

/// What cancelling a cycle does after reading its status.
#[derive(Debug, Clone, Copy, PartialEq, Eq, Structural)]
pub enum CancelStep {
    /// The cycle is cancelled already: nothing changes.
    AlreadyCancelled,
    /// The cycle becomes cancelled.
    Cancel,
}

/// Cancelling a cycle, on its stored status.
pub open spec fn spec_cancel_cycle(current: Option<CycleState>) -> Result<CancelStep, ErrorView> {
    match current {
        None => Err(ErrorView::NotFound("appraisal cycle"@)),
        Some(CycleState::Closed) => Err(ErrorView::InvalidState("a closed cycle is history — it cannot be cancelled"@)),
        Some(CycleState::Cancelled) => Ok(CancelStep::AlreadyCancelled),
        Some(_) => Ok(CancelStep::Cancel),
    }
}

/// Cancelling a cycle, on its stored status: reachable from every status
/// before closed.
pub fn decide_cancel_cycle(current: Option<CycleState>) -> (r: Result<CancelStep, PerformanceError>)
    ensures
        outcome(r) == spec_cancel_cycle(current),
{
    match current {
        None => Err(PerformanceError::NotFound("appraisal cycle")),
        Some(CycleState::Closed) => Err(PerformanceError::InvalidState(
            String::from_str("a closed cycle is history — it cannot be cancelled"),
        )),
        Some(CycleState::Cancelled) => Ok(CancelStep::AlreadyCancelled),
        Some(_) => Ok(CancelStep::Cancel),
    }
}

// ── Appraisals ───────────────────────────────────────────────────────────

/// Enrolling an employee: `cycle` is the stored status of the cycle and
/// whether it is soft-deleted; `enrolled` is whether the employee already has
/// a live appraisal in it.
pub open spec fn spec_enroll(cycle: Option<(CycleState, bool)>, enrolled: bool) -> Result<(), ErrorView> {
    if cycle == Some((CycleState::Open, false)) && !enrolled {
        Ok(())
    } else {
        match cycle {
            None => Err(ErrorView::NotFound("appraisal cycle"@)),
            Some((CycleState::Open, _)) => Err(ErrorView::Invalid("this employee already has an appraisal in this cycle"@)),
            Some((other, _)) => Err(ErrorView::InvalidState(
                "the cycle is "@ + other.name() + "; appraisals enroll only while it is open"@,
            )),
        }
    }
}

/// The row of a new appraisal stored under `id`.
pub open spec fn spec_new_appraisal_row(n: NewAppraisal, id: Uuid) -> AppraisalRow {
    AppraisalRow {
        id,
        cycle_id: n.cycle_id,
        employee_id: n.employee_id,
        reviewer_id: n.reviewer_id,
        status: AppraisalStatus::Draft,
        self_review: None,
        manager_review: None,
        overall_rating: None,
        submitted_at: None,
        rated_at: None,
        deleted: false,
    }
}

/// Enrolls an employee in an open cycle: the draft row to store under `id`,
/// or the error.
pub fn prepare_appraisal(n: &NewAppraisal, id: Uuid, cycle: Option<(CycleState, bool)>, enrolled: bool) -> (r: Result<AppraisalRow, PerformanceError>)
    ensures
        match spec_enroll(cycle, enrolled) {
            Err(e) => r matches Err(f) && f@ == e,
            Ok(_) => r == Ok::<AppraisalRow, PerformanceError>(spec_new_appraisal_row(*n, id)),
        },
{
    match cycle {
        Some((CycleState::Open, false)) => {
            if !enrolled {
                return Ok(AppraisalRow {
                    id,
                    cycle_id: n.cycle_id,
                    employee_id: n.employee_id,
                    reviewer_id: n.reviewer_id,
                    status: AppraisalStatus::Draft,
                    self_review: None,
                    manager_review: None,
                    overall_rating: None,
                    submitted_at: None,
                    rated_at: None,
                    deleted: false,
                });
            }
        },
        _ => {},
    }
    match cycle {
        None => Err(PerformanceError::NotFound("appraisal cycle")),
        Some((CycleState::Open, _)) => Err(PerformanceError::Invalid(
            String::from_str("this employee already has an appraisal in this cycle"),
        )),
        Some((other, _)) => {
            let mut m = String::from_str("the cycle is ");
            m.append(other.to_string().as_str());
            m.append("; appraisals enroll only while it is open");
            Err(PerformanceError::InvalidState(m))
        },
    }
}

/// The refusal of a self step.
pub open spec fn self_review_refusal() -> ErrorView {
    ErrorView::InvalidState("only your own draft appraisal can take a self review"@)
}

/// The employee's self step on the stored appraisal `row`.
pub open spec fn spec_submit_self(row: Option<AppraisalRow>, employee_id: Uuid, review: String, now: Timestamp) -> Result<AppraisalRow, ErrorView> {
    match row {
        Some(a) => if !a.deleted && a.employee_id == employee_id && a.status == AppraisalStatus::Draft {
            Ok(AppraisalRow { self_review: Some(review), submitted_at: Some(now), status: AppraisalStatus::SelfReview, ..a })
        } else {
            Err(self_review_refusal())
        },
        None => Err(self_review_refusal()),
    }
}

/// The employee's self step: writes the self review and moves
/// draft → self_review; only the appraisal's own employee, on a live draft.
pub fn decide_submit_self(row: Option<&AppraisalRow>, employee_id: Uuid, review: String, now: Timestamp) -> (r: Result<AppraisalRow, PerformanceError>)
    ensures
        outcome(r) == spec_submit_self(match row { Some(a) => Some(*a), None => None }, employee_id, review, now),
{
    match row {
        Some(a) => {
            if !a.deleted && a.employee_id == employee_id && a.status == AppraisalStatus::Draft {
                let mut b = a.clone();
                b.self_review = Some(review);
                b.submitted_at = Some(now);
                b.status = AppraisalStatus::SelfReview;
                return Ok(b);
            }
        },
        None => {},
    }
    Err(PerformanceError::InvalidState(String::from_str("only your own draft appraisal can take a self review")))
}

/// The refusal of a manager's step.
pub open spec fn manager_review_refusal() -> ErrorView {
    ErrorView::InvalidState("only your assigned appraisal, after the self step, takes a manager review"@)
}

/// The manager's step on the stored appraisal `row`.
pub open spec fn spec_submit_manager(row: Option<AppraisalRow>, reviewer_id: Uuid, review: String) -> Result<AppraisalRow, ErrorView> {
    match row {
        Some(a) => if !a.deleted && a.reviewer_id == reviewer_id && a.status == AppraisalStatus::SelfReview {
            Ok(AppraisalRow { manager_review: Some(review), status: AppraisalStatus::Submitted, ..a })
        } else {
            Err(manager_review_refusal())
        },
        None => Err(manager_review_refusal()),
    }
}

/// The manager's step: requires the self step done; writes the manager's
/// assessment and moves self_review → submitted; only the assigned manager, on a
/// live appraisal.
pub fn decide_submit_manager(row: Option<&AppraisalRow>, reviewer_id: Uuid, review: String) -> (r: Result<AppraisalRow, PerformanceError>)
    ensures
        outcome(r) == spec_submit_manager(match row { Some(a) => Some(*a), None => None }, reviewer_id, review),
{
    match row {
        Some(a) => {
            if !a.deleted && a.reviewer_id == reviewer_id && a.status == AppraisalStatus::SelfReview {
                let mut b = a.clone();
                b.manager_review = Some(review);
                b.status = AppraisalStatus::Submitted;
                return Ok(b);
            }
        },
        None => {},
    }
    Err(PerformanceError::InvalidState(String::from_str(
        "only your assigned appraisal, after the self step, takes a manager review",
    )))
}

/// The refusal of a rating.
pub open spec fn rating_refusal() -> ErrorView {
    ErrorView::InvalidState("only a submitted appraisal, in a calibration cycle, takes a rating"@)
}

/// The calibration rating of the stored appraisal `row`, whose cycle has the
/// stored status `cycle`.
pub open spec fn spec_rate(rating: Decimal, row: Option<AppraisalRow>, cycle: Option<CycleState>, now: Timestamp) -> Result<AppraisalRow, ErrorView> {
    if rating.spec_mantissa() < 0 {
        Err(ErrorView::Invalid("the rating must be non-negative"@))
    } else {
        match row {
            Some(a) => if !a.deleted && a.status == AppraisalStatus::Submitted && cycle == Some(CycleState::Calibration) {
                Ok(AppraisalRow { overall_rating: Some(rating), rated_at: Some(now), status: AppraisalStatus::Calibrated, ..a })
            } else {
                Err(rating_refusal())
            },
            None => Err(rating_refusal()),
        }
    }
}

/// The calibration rating: non-negative, on a live submitted appraisal whose
/// cycle is in calibration; moves it to calibrated.
pub fn decide_rate(rating: Decimal, row: Option<&AppraisalRow>, cycle: Option<CycleState>, now: Timestamp) -> (r: Result<AppraisalRow, PerformanceError>)
    ensures
        outcome(r) == spec_rate(rating, match row { Some(a) => Some(*a), None => None }, cycle, now),
{
    if rating.is_negative() {
        return Err(PerformanceError::Invalid(String::from_str("the rating must be non-negative")));
    }
    match row {
        Some(a) => {
            if !a.deleted && a.status == AppraisalStatus::Submitted && cycle == Some(CycleState::Calibration) {
                let mut b = a.clone();
                b.overall_rating = Some(rating);
                b.rated_at = Some(now);
                b.status = AppraisalStatus::Calibrated;
                return Ok(b);
            }
        },
        None => {},
    }
    Err(PerformanceError::InvalidState(String::from_str(
        "only a submitted appraisal, in a calibration cycle, takes a rating",
    )))
}

/// What finalising an appraisal does after reading it.
#[derive(Debug, Clone, Copy)]
pub enum FinaliseStep {
    /// The appraisal is finalized already: nothing changes.
    AlreadyFinalized,
    /// The appraisal becomes finalized and the event is announced.
    Finalise(PerformanceEvent),
}

/// The event announcing that the appraisal `a` was finalised.
pub open spec fn finalised_event(a: AppraisalRow) -> PerformanceEvent {
    PerformanceEvent::AppraisalFinalised { appraisal_id: a.id, employee_id: a.employee_id, rating: a.overall_rating }
}

/// Finalising the stored appraisal `row` (a soft-deleted one counts as
/// missing).
pub open spec fn spec_finalise(row: Option<AppraisalRow>) -> Result<FinaliseStep, ErrorView> {
    match row {
        Some(a) => if a.deleted {
            Err(ErrorView::NotFound("appraisal"@))
        } else if a.status == AppraisalStatus::Finalized {
            Ok(FinaliseStep::AlreadyFinalized)
        } else if a.status == AppraisalStatus::Calibrated {
            Ok(FinaliseStep::Finalise(finalised_event(a)))
        } else {
            Err(ErrorView::InvalidState("only a calibrated appraisal finalises"@))
        },
        None => Err(ErrorView::NotFound("appraisal"@)),
    }
}

/// The per-appraisal finalise: a calibrated appraisal becomes finalized
/// (immutable) and is announced; a finalized one stays as it is.
pub fn decide_finalise(row: Option<&AppraisalRow>) -> (r: Result<FinaliseStep, PerformanceError>)
    ensures
        outcome(r) == spec_finalise(match row { Some(a) => Some(*a), None => None }),
{
    match row {
        Some(a) => {
            if a.deleted {
                Err(PerformanceError::NotFound("appraisal"))
            } else if a.status == AppraisalStatus::Finalized {
                Ok(FinaliseStep::AlreadyFinalized)
            } else if a.status == AppraisalStatus::Calibrated {
                Ok(FinaliseStep::Finalise(PerformanceEvent::AppraisalFinalised {
                    appraisal_id: a.id,
                    employee_id: a.employee_id,
                    rating: a.overall_rating,
                }))
            } else {
                Err(PerformanceError::InvalidState(String::from_str("only a calibrated appraisal finalises")))
            }
        },
        None => Err(PerformanceError::NotFound("appraisal")),
    }
}

// ── Goals ────────────────────────────────────────────────────────────────

/// The checks on a new goal.
pub open spec fn spec_check_new_goal(title: Seq<char>, weight: Decimal) -> Result<(), ErrorView> {
    if is_blank_text(title) {
        Err(ErrorView::Invalid("a goal needs a title"@))
    } else if weight.spec_mantissa() <= 0 {
        Err(ErrorView::Invalid("a goal's weight must be positive"@))
    } else {
        Ok(())
    }
}

/// Checks a new goal: a title, and a positive weight.
pub fn check_new_goal(n: &NewGoal) -> (r: Result<(), PerformanceError>)
    ensures
        outcome(r) == spec_check_new_goal(n.title@, n.weight),
{
    if is_blank(n.title.as_str()) {
        return Err(PerformanceError::Invalid(String::from_str("a goal needs a title")));
    }
    if n.weight.is_not_positive() {
        return Err(PerformanceError::Invalid(String::from_str("a goal's weight must be positive")));
    }
    Ok(())
}

/// The text refusing a goal whose weights would sum to `sum`.
pub open spec fn weight_cap_message(sum: (i128, u32)) -> Seq<char> {
    "the employee's goal weights would sum to "@ + decimal_text(sum) + " — the cap is 100"@
}

/// Whether a decimal given as (mantissa, scale) is above the whole number `n`.
pub open spec fn above_whole(v: (i128, u32), n: int) -> bool {
    v.0 > n * pow10(v.1 as nat)
}

/// The weight cap on the sum of an employee's live goal weights (this goal
/// included), given as (mantissa, scale): at most 100.
pub open spec fn spec_weight_cap(sum: (i128, u32)) -> Result<(), ErrorView> {
    if above_whole(sum, 100) {
        Err(ErrorView::Invalid(weight_cap_message(sum)))
    } else {
        Ok(())
    }
}

/// Applies the weight cap to `sum`, the employee's live goal weights for the
/// cycle with the new goal's weight added.
pub fn weight_cap_verdict(sum: &Decimal) -> (r: Result<(), PerformanceError>)
    ensures
        outcome(r) == spec_weight_cap(sum@),
{
    if sum.is_above(100) {
        let mut m = String::from_str("the employee's goal weights would sum to ");
        m.append(decimal_to_text(sum).as_str());
        m.append(" — the cap is 100");
        Err(PerformanceError::Invalid(m))
    } else {
        Ok(())
    }
}

/// The weight cap for a new goal of `weight` when the employee's live goals
/// for the cycle weigh `total`: `None` where the decimal sum overflows, else
/// the verdict on the sum.
pub fn check_weight_cap(total: &Decimal, weight: &Decimal) -> (r: Option<Result<(), PerformanceError>>)
    ensures
        match decimal_sum(total@, weight@) {
            None => r is None,
            Some(v) => r matches Some(x) && outcome(x) == spec_weight_cap(v),
        },
{
    match checked_add(total, weight) {
        Some(sum) => Some(weight_cap_verdict(&sum)),
        None => None,
    }
}

/// The row of a new goal stored under `id`: active.
pub open spec fn spec_new_goal_row(n: NewGoal, id: Uuid) -> GoalRow {
    GoalRow {
        id,
        employee_id: n.employee_id,
        cycle_id: n.cycle_id,
        title: n.title,
        weight: Some(n.weight),
        status: GoalStatus::Active,
        deleted: false,
    }
}

/// The active row of a new goal to store under `id`.
pub fn new_goal_row(n: NewGoal, id: Uuid) -> (r: GoalRow)
    ensures
        r == spec_new_goal_row(n, id),
{
    GoalRow {
        id,
        employee_id: n.employee_id,
        cycle_id: n.cycle_id,
        title: n.title,
        weight: Some(n.weight),
        status: GoalStatus::Active,
        deleted: false,
    }
}

/// Whether a goal counts toward the weight cap: live and draft or active.
pub open spec fn goal_is_open(g: GoalRow) -> bool {
    !g.deleted && (g.status == GoalStatus::Draft || g.status == GoalStatus::Active)
}

/// The refusal to close a goal.
pub open spec fn close_goal_refusal() -> ErrorView {
    ErrorView::InvalidState("only a draft or active goal closes"@)
}

/// Closing the stored goal `row`.
pub open spec fn spec_close_goal(row: Option<GoalRow>, achieved: bool) -> Result<GoalRow, ErrorView> {
    match row {
        Some(g) => if goal_is_open(g) {
            Ok(GoalRow { status: if achieved { GoalStatus::Achieved } else { GoalStatus::Missed }, ..g })
        } else {
            Err(close_goal_refusal())
        },
        None => Err(close_goal_refusal()),
    }
}

/// Closes a goal (achieved or missed): only a live draft or active goal.
pub fn decide_close_goal(row: Option<&GoalRow>, achieved: bool) -> (r: Result<GoalRow, PerformanceError>)
    ensures
        outcome(r) == spec_close_goal(match row { Some(g) => Some(*g), None => None }, achieved),
{
    match row {
        Some(g) => {
            if !g.deleted && (g.status == GoalStatus::Draft || g.status == GoalStatus::Active) {
                let mut h = g.clone();
                h.status = if achieved { GoalStatus::Achieved } else { GoalStatus::Missed };
                return Ok(h);
            }
        },
        None => {},
    }
    Err(PerformanceError::InvalidState(String::from_str("only a draft or active goal closes")))
}


// ── Laws of the decisions ────────────────────────────────────────────────

/// A new cycle is accepted exactly when its name is not blank and its period
/// ends strictly after it starts, in time order (year, then month, then day).
pub proof fn lemma_new_cycle_needs_a_forward_period(name: Seq<char>, start: Date, end: Date)
    requires
        start.in_calendar_range(),
        end.in_calendar_range(),
    ensures
        spec_check_new_cycle(name, start, end) is Ok <==> (!is_blank_text(name) && start.day_count() < end.day_count()),
        !is_blank_text(name) && end.day_count() <= start.day_count() ==>
            spec_check_new_cycle(name, start, end) == Err::<(), ErrorView>(ErrorView::Invalid("period_end must be after period_start"@)),
{
}

/// A new goal is accepted exactly when its title is not blank and its weight
/// is above zero; a titled goal with a weight of zero or below is refused as
/// such.
pub proof fn lemma_new_goal_needs_a_positive_weight(title: Seq<char>, weight: Decimal)
    ensures
        spec_check_new_goal(title, weight) is Ok <==> (!is_blank_text(title) && weight.spec_mantissa() > 0),
        !is_blank_text(title) && weight.spec_mantissa() <= 0 ==>
            spec_check_new_goal(title, weight) == Err::<(), ErrorView>(ErrorView::Invalid("a goal's weight must be positive"@)),
{
}

/// Closing a goal succeeds exactly on a live goal in draft or active; the
/// goal then becomes achieved or missed, as asked, and nothing else of it
/// changes.
pub proof fn lemma_close_goal_closes_open_goals(g: GoalRow, achieved: bool)
    ensures
        spec_close_goal(Some(g), achieved) is Ok
            <==> (!g.deleted && (g.status == GoalStatus::Draft || g.status == GoalStatus::Active)),
        spec_close_goal(Some(g), achieved) matches Ok(h) ==> h == (GoalRow {
            status: if achieved { GoalStatus::Achieved } else { GoalStatus::Missed },
            ..g
        }),
        spec_close_goal(None, achieved) is Err,
{
}

/// The self step succeeds exactly on a live draft appraisal of the employee
/// who asks; it records the review and the time and moves the appraisal to
/// self_review, keeping everything else of it.
pub proof fn lemma_self_step_is_the_employees_own(a: AppraisalRow, employee_id: Uuid, review: String, now: Timestamp)
    ensures
        spec_submit_self(Some(a), employee_id, review, now) is Ok
            <==> (!a.deleted && a.employee_id == employee_id && a.status == AppraisalStatus::Draft),
        spec_submit_self(Some(a), employee_id, review, now) matches Ok(b) ==> b == (AppraisalRow {
            self_review: Some(review),
            submitted_at: Some(now),
            status: AppraisalStatus::SelfReview,
            ..a
        }),
        spec_submit_self(None, employee_id, review, now) is Err,
{
}

/// The manager's step succeeds exactly on a live appraisal in self_review
/// whose assigned manager asks; it records the assessment and moves the appraisal to
/// submitted, keeping everything else of it.
pub proof fn lemma_manager_step_follows_the_self_step(a: AppraisalRow, reviewer_id: Uuid, review: String)
    ensures
        spec_submit_manager(Some(a), reviewer_id, review) is Ok
            <==> (!a.deleted && a.reviewer_id == reviewer_id && a.status == AppraisalStatus::SelfReview),
        spec_submit_manager(Some(a), reviewer_id, review) matches Ok(b) ==> b == (AppraisalRow {
            manager_review: Some(review),
            status: AppraisalStatus::Submitted,
            ..a
        }),
        spec_submit_manager(None, reviewer_id, review) is Err,
{
}

/// A rating is taken exactly when it is zero or above, the appraisal is live
/// and submitted, and its cycle is in calibration; it records the rating and
/// the time and moves the appraisal to calibrated.
pub proof fn lemma_rating_needs_a_calibration_cycle(rating: Decimal, a: AppraisalRow, cycle: Option<CycleState>, now: Timestamp)
    ensures
        spec_rate(rating, Some(a), cycle, now) is Ok <==> (rating.spec_mantissa() >= 0 && !a.deleted
            && a.status == AppraisalStatus::Submitted && cycle == Some(CycleState::Calibration)),
        spec_rate(rating, Some(a), cycle, now) matches Ok(b) ==> b == (AppraisalRow {
            overall_rating: Some(rating),
            rated_at: Some(now),
            status: AppraisalStatus::Calibrated,
            ..a
        }),
        rating.spec_mantissa() < 0 ==> spec_rate(rating, Some(a), cycle, now)
            == Err::<AppraisalRow, ErrorView>(ErrorView::Invalid("the rating must be non-negative"@)),
        spec_rate(rating, None, cycle, now) is Err,
{
}

/// Finalising succeeds exactly on a live appraisal that is calibrated (it is
/// then announced with its employee and rating) or finalized already (nothing
/// to do).
pub proof fn lemma_only_calibrated_appraisals_finalise(a: AppraisalRow)
    ensures
        spec_finalise(Some(a)) is Ok <==> (!a.deleted
            && (a.status == AppraisalStatus::Calibrated || a.status == AppraisalStatus::Finalized)),
        !a.deleted && a.status == AppraisalStatus::Calibrated ==> spec_finalise(Some(a))
            == Ok::<FinaliseStep, ErrorView>(FinaliseStep::Finalise(PerformanceEvent::AppraisalFinalised {
                appraisal_id: a.id,
                employee_id: a.employee_id,
                rating: a.overall_rating,
            })),
        !a.deleted && a.status == AppraisalStatus::Finalized ==> spec_finalise(Some(a))
            == Ok::<FinaliseStep, ErrorView>(FinaliseStep::AlreadyFinalized),
        spec_finalise(None) is Err,
{
}

/// Moving a cycle succeeds exactly when it is stored in the status it moves
/// from, and gives the status it moves to.
pub proof fn lemma_move_cycle_from_the_named_status(current: Option<CycleState>, from: CycleState, to: CycleState)
    ensures
        spec_move_cycle(current, from, to) is Ok <==> current == Some(from),
        current == Some(from) ==> spec_move_cycle(current, from, to) == Ok::<CycleState, ErrorView>(to),
        current is None ==> spec_move_cycle(current, from, to)
            == Err::<CycleState, ErrorView>(ErrorView::NotFound("appraisal cycle"@)),
{
}

/// Only a calibration cycle goes on to the appraisal check, a closed one is
/// left as it is, and every other status is refused.
pub proof fn lemma_close_starts_from_calibration(current: Option<CycleState>)
    ensures
        spec_close_cycle(current) == Ok::<CloseStep, ErrorView>(CloseStep::CheckAppraisals)
            <==> current == Some(CycleState::Calibration),
        spec_close_cycle(current) == Ok::<CloseStep, ErrorView>(CloseStep::AlreadyClosed)
            <==> current == Some(CycleState::Closed),
{
}

/// Cancelling refuses a missing or closed cycle, leaves a cancelled one as it
/// is, and cancels every other.
pub proof fn lemma_cancel_refuses_only_closed(current: Option<CycleState>)
    ensures
        spec_cancel_cycle(current) is Ok <==> (current is Some && current != Some(CycleState::Closed)),
        spec_cancel_cycle(current) == Ok::<CancelStep, ErrorView>(CancelStep::Cancel)
            <==> (current is Some && current != Some(CycleState::Closed) && current != Some(CycleState::Cancelled)),
{
}

/// Enrolment succeeds exactly in a stored, live, open cycle where the
/// employee is not enrolled yet; a missing cycle is not found, and a cycle
/// in another status is refused whoever asks.
pub proof fn lemma_enrol_only_in_open_cycles(cycle: Option<(CycleState, bool)>, enrolled: bool)
    ensures
        spec_enroll(cycle, enrolled) is Ok <==> (cycle == Some((CycleState::Open, false)) && !enrolled),
        cycle is None ==> spec_enroll(cycle, enrolled) == Err::<(), ErrorView>(ErrorView::NotFound("appraisal cycle"@)),
        (cycle matches Some((st, _)) && st != CycleState::Open) ==> spec_enroll(cycle, enrolled) matches Err(ErrorView::InvalidState(_)),
{
}

} // verus!
