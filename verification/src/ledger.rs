//! An in-memory store of cycles, appraisals and goals that runs the write
//! path's verbs: each verb reads the rows the rules look at, asks the
//! decision of `performance_write_service`, and writes what it answers. The
//! module's laws are stated over it: a closed cycle holds only finalized
//! appraisals, statuses move only along the two state machines, a finalized
//! appraisal never changes, and events announce exactly the closes and the
//! finalisations.

use vstd::prelude::*;
use vstd::string::*;
use crate::appraisal_status::AppraisalStatus;
use crate::goal_status::GoalStatus;
use crate::performance_events::PerformanceEvent;
use crate::performance_write_service::{
    AppraisalRow, CancelStep, CloseStep, CycleRow, CycleState, ErrorView, FinaliseStep, GoalRow,
    NewAppraisal, NewCycle, NewGoal, PerformanceError, all_finalized, outcome, goal_is_open,
    spec_cancel_cycle, spec_check_new_cycle, spec_check_new_goal, spec_close_cycle,
    spec_close_gate, spec_close_goal, spec_enroll, spec_finalise, spec_move_cycle,
    spec_new_appraisal_row, spec_new_goal_row, spec_rate, spec_submit_manager, spec_submit_self,
    spec_weight_cap, above_whole, check_new_goal, check_weight_cap, decide_cancel_cycle, decide_close_cycle,
    decide_close_gate, decide_close_goal, decide_enter_calibration, decide_finalise,
    decide_open_cycle, decide_rate, decide_submit_manager, decide_submit_self, new_goal_row,
    prepare_appraisal, prepare_cycle, lemma_unfinalised_count_zero,
};
use crate::values::{Decimal, Timestamp, Uuid, decimal_sum};
use crate::text::is_blank_text;

verus! {

/// What the store holds.
pub struct LedgerState {
    pub cycles: Seq<CycleRow>,
    pub appraisals: Seq<AppraisalRow>,
    pub goals: Seq<GoalRow>,
    /// Every event announced so far, oldest first.
    pub events: Seq<PerformanceEvent>,
}

// ── Looking rows up ──────────────────────────────────────────────────────

/// No two cycles share an identifier.
pub open spec fn cycle_ids_unique(c: Seq<CycleRow>) -> bool {
    forall|i: int, j: int| 0 <= i < c.len() && 0 <= j < c.len() && i != j ==> c[i].id != c[j].id
}

/// No two appraisals share an identifier.
pub open spec fn appraisal_ids_unique(a: Seq<AppraisalRow>) -> bool {
    forall|i: int, j: int| 0 <= i < a.len() && 0 <= j < a.len() && i != j ==> a[i].id != a[j].id
}

/// No two goals share an identifier.
pub open spec fn goal_ids_unique(g: Seq<GoalRow>) -> bool {
    forall|i: int, j: int| 0 <= i < g.len() && 0 <= j < g.len() && i != j ==> g[i].id != g[j].id
}

/// The position of the cycle with `id`.
pub open spec fn cycle_pos(c: Seq<CycleRow>, id: Uuid) -> Option<int> {
    if exists|i: int| 0 <= i < c.len() && c[i].id == id {
        Some(choose|i: int| 0 <= i < c.len() && c[i].id == id)
    } else {
        None
    }
}

/// The position of the appraisal with `id`.
pub open spec fn appraisal_pos(a: Seq<AppraisalRow>, id: Uuid) -> Option<int> {
    if exists|i: int| 0 <= i < a.len() && a[i].id == id {
        Some(choose|i: int| 0 <= i < a.len() && a[i].id == id)
    } else {
        None
    }
}

/// The position of the goal with `id`.
pub open spec fn goal_pos(g: Seq<GoalRow>, id: Uuid) -> Option<int> {
    if exists|i: int| 0 <= i < g.len() && g[i].id == id {
        Some(choose|i: int| 0 <= i < g.len() && g[i].id == id)
    } else {
        None
    }
}

/// The stored status of the cycle with `id`.
pub open spec fn cycle_status(c: Seq<CycleRow>, id: Uuid) -> Option<CycleState> {
    match cycle_pos(c, id) {
        Some(i) => Some(c[i].status),
        None => None,
    }
}

/// The stored appraisal with `id`.
pub open spec fn appraisal_row(a: Seq<AppraisalRow>, id: Uuid) -> Option<AppraisalRow> {
    match appraisal_pos(a, id) {
        Some(i) => Some(a[i]),
        None => None,
    }
}

/// The stored goal with `id`.
pub open spec fn goal_row(g: Seq<GoalRow>, id: Uuid) -> Option<GoalRow> {
    match goal_pos(g, id) {
        Some(i) => Some(g[i]),
        None => None,
    }
}

/// A cycle whose identifier is unique is found at its own position.
pub proof fn lemma_cycle_pos(c: Seq<CycleRow>, id: Uuid, i: int)
    requires
        cycle_ids_unique(c),
        0 <= i < c.len(),
        c[i].id == id,
    ensures
        cycle_pos(c, id) == Some(i),
{
}

/// An appraisal whose identifier is unique is found at its own position.
pub proof fn lemma_appraisal_pos(a: Seq<AppraisalRow>, id: Uuid, i: int)
    requires
        appraisal_ids_unique(a),
        0 <= i < a.len(),
        a[i].id == id,
    ensures
        appraisal_pos(a, id) == Some(i),
{
}

/// A goal whose identifier is unique is found at its own position.
pub proof fn lemma_goal_pos(g: Seq<GoalRow>, id: Uuid, i: int)
    requires
        goal_ids_unique(g),
        0 <= i < g.len(),
        g[i].id == id,
    ensures
        goal_pos(g, id) == Some(i),
{
}

/// The statuses of the live appraisals of cycle `cycle_id`, in store order.
pub open spec fn live_statuses(a: Seq<AppraisalRow>, cycle_id: Uuid) -> Seq<AppraisalStatus>
    decreases a.len(),
{
    if a.len() == 0 {
        Seq::empty()
    } else {
        let rest = live_statuses(a.drop_last(), cycle_id);
        if !a.last().deleted && a.last().cycle_id == cycle_id {
            rest.push(a.last().status)
        } else {
            rest
        }
    }
}

/// When every live appraisal of a cycle is finalized, each of them is.
pub proof fn lemma_live_statuses_finalized(a: Seq<AppraisalRow>, cycle_id: Uuid, j: int)
    requires
        all_finalized(live_statuses(a, cycle_id)),
        0 <= j < a.len(),
        !a[j].deleted,
        a[j].cycle_id == cycle_id,
    ensures
        a[j].status == AppraisalStatus::Finalized,
    decreases a.len(),
{
    let rest = live_statuses(a.drop_last(), cycle_id);
    if j == a.len() - 1 {
        assert(live_statuses(a, cycle_id).last() == a[j].status);
    } else {
        assert(all_finalized(rest)) by {
            assert forall|k: int| 0 <= k < rest.len() implies rest[k] == AppraisalStatus::Finalized by {
                assert(live_statuses(a, cycle_id)[k] == rest[k]);
            }
        }
        assert(a.drop_last()[j] == a[j]);
        lemma_live_statuses_finalized(a.drop_last(), cycle_id, j);
    }
}

/// Whether `employee_id` has a live appraisal in cycle `cycle_id`.
pub open spec fn is_enrolled(a: Seq<AppraisalRow>, cycle_id: Uuid, employee_id: Uuid) -> bool {
    exists|j: int| 0 <= j < a.len() && !a[j].deleted && a[j].cycle_id == cycle_id && a[j].employee_id == employee_id
}

/// The cycle with `id` as the enrolment rule sees it: its status and whether
/// it is soft-deleted.
pub open spec fn enrolment_view(c: Seq<CycleRow>, id: Uuid) -> Option<(CycleState, bool)> {
    match cycle_pos(c, id) {
        Some(i) => Some((c[i].status, c[i].deleted)),
        None => None,
    }
}

/// Whether a goal counts toward the weight total of (employee, cycle).
pub open spec fn counts_toward(g: GoalRow, employee_id: Uuid, cycle_id: Option<Uuid>) -> bool {
    goal_is_open(g) && g.employee_id == employee_id && g.cycle_id == cycle_id && g.weight is Some
}

/// The sum of the weights of an employee's live draft or active goals for a
/// cycle, added in store order with the decimal addition; `None` on overflow.
pub open spec fn weight_total(g: Seq<GoalRow>, employee_id: Uuid, cycle_id: Option<Uuid>) -> Option<(i128, u32)>
    decreases g.len(),
{
    if g.len() == 0 {
        Some((0i128, 0u32))
    } else {
        match weight_total(g.drop_last(), employee_id, cycle_id) {
            None => None,
            Some(t) => if counts_toward(g.last(), employee_id, cycle_id) {
                decimal_sum(t, g.last().weight.unwrap()@)
            } else {
                Some(t)
            },
        }
    }
}

// ── The store's invariant ────────────────────────────────────────────────

/// The durable predicate: a closed cycle holds only finalized (live)
/// appraisals.
pub open spec fn closed_cycles_finalized(s: LedgerState) -> bool {
    forall|i: int, j: int|
        0 <= i < s.cycles.len() && 0 <= j < s.appraisals.len()
        && #[trigger] s.cycles[i].status == CycleState::Closed
        && #[trigger] s.appraisals[j].cycle_id == s.cycles[i].id
        && !s.appraisals[j].deleted
        ==> s.appraisals[j].status == AppraisalStatus::Finalized
}

/// What every state of the store satisfies.
pub open spec fn ledger_inv(s: LedgerState) -> bool {
    &&& cycle_ids_unique(s.cycles)
    &&& appraisal_ids_unique(s.appraisals)
    &&& goal_ids_unique(s.goals)
    &&& closed_cycles_finalized(s)
}

// ── The verbs, as functions of the store ─────────────────────────────────

/// The error for an identifier that is taken already.
pub open spec fn duplicate_key() -> ErrorView {
    ErrorView::Db("duplicate key"@)
}

/// The error for a weight total that overflows the decimal range.
pub open spec fn numeric_overflow() -> ErrorView {
    ErrorView::Db("numeric overflow"@)
}

/// The store with the cycle at position `i` moved to status `st`.
pub open spec fn set_cycle_status(s: LedgerState, i: int, st: CycleState) -> LedgerState {
    LedgerState { cycles: s.cycles.update(i, CycleRow { status: st, ..s.cycles[i] }), ..s }
}

/// Creating a cycle under `id`: the store after it and the answer.
pub open spec fn ledger_create_cycle(s: LedgerState, n: NewCycle, id: Uuid) -> (LedgerState, Result<Uuid, ErrorView>) {
    match spec_check_new_cycle(n.name@, n.period_start, n.period_end) {
        Err(e) => (s, Err(e)),
        Ok(_) => if cycle_pos(s.cycles, id) is Some {
            (s, Err(duplicate_key()))
        } else {
            (LedgerState {
                cycles: s.cycles.push(CycleRow {
                    id,
                    name: n.name,
                    cycle_type: n.cycle_type,
                    period_start: n.period_start,
                    period_end: n.period_end,
                    status: CycleState::Draft,
                    deleted: false,
                }),
                ..s
            }, Ok(id))
        },
    }
}

/// Moving a cycle from `from` to `to`: the store after it and the answer.
pub open spec fn ledger_move_cycle(s: LedgerState, id: Uuid, from: CycleState, to: CycleState) -> (LedgerState, Result<(), ErrorView>) {
    match spec_move_cycle(cycle_status(s.cycles, id), from, to) {
        Err(e) => (s, Err(e)),
        Ok(st) => (set_cycle_status(s, cycle_pos(s.cycles, id).unwrap(), st), Ok(())),
    }
}

/// Closing a cycle: the store after it and the answer.
pub open spec fn ledger_close_cycle(s: LedgerState, id: Uuid) -> (LedgerState, Result<(), ErrorView>) {
    match spec_close_cycle(cycle_status(s.cycles, id)) {
        Err(e) => (s, Err(e)),
        Ok(CloseStep::AlreadyClosed) => (s, Ok(())),
        Ok(CloseStep::CheckAppraisals) => match spec_close_gate(live_statuses(s.appraisals, id)) {
            Err(e) => (s, Err(e)),
            Ok(_) => {
                let t = set_cycle_status(s, cycle_pos(s.cycles, id).unwrap(), CycleState::Closed);
                (LedgerState { events: t.events.push(PerformanceEvent::CycleClosed { cycle_id: id }), ..t }, Ok(()))
            },
        },
    }
}

/// Cancelling a cycle: the store after it and the answer.
pub open spec fn ledger_cancel_cycle(s: LedgerState, id: Uuid) -> (LedgerState, Result<(), ErrorView>) {
    match spec_cancel_cycle(cycle_status(s.cycles, id)) {
        Err(e) => (s, Err(e)),
        Ok(CancelStep::AlreadyCancelled) => (s, Ok(())),
        Ok(CancelStep::Cancel) => (set_cycle_status(s, cycle_pos(s.cycles, id).unwrap(), CycleState::Cancelled), Ok(())),
    }
}

/// Enrolling an employee under `id`: the store after it and the answer.
pub open spec fn ledger_create_appraisal(s: LedgerState, n: NewAppraisal, id: Uuid) -> (LedgerState, Result<Uuid, ErrorView>) {
    match spec_enroll(enrolment_view(s.cycles, n.cycle_id), is_enrolled(s.appraisals, n.cycle_id, n.employee_id)) {
        Err(e) => (s, Err(e)),
        Ok(_) => if appraisal_pos(s.appraisals, id) is Some {
            (s, Err(duplicate_key()))
        } else {
            (LedgerState { appraisals: s.appraisals.push(spec_new_appraisal_row(n, id)), ..s }, Ok(id))
        },
    }
}

/// Writes the answer of an appraisal verb back to the appraisal with `id`.
pub open spec fn write_appraisal(s: LedgerState, id: Uuid, r: Result<AppraisalRow, ErrorView>) -> (LedgerState, Result<(), ErrorView>) {
    match r {
        Err(e) => (s, Err(e)),
        Ok(row) => (LedgerState { appraisals: s.appraisals.update(appraisal_pos(s.appraisals, id).unwrap(), row), ..s }, Ok(())),
    }
}

/// The employee's self step: the store after it and the answer.
pub open spec fn ledger_submit_self(s: LedgerState, appraisal_id: Uuid, employee_id: Uuid, review: String, now: Timestamp) -> (LedgerState, Result<(), ErrorView>) {
    write_appraisal(s, appraisal_id, spec_submit_self(appraisal_row(s.appraisals, appraisal_id), employee_id, review, now))
}

/// The manager's step: the store after it and the answer.
pub open spec fn ledger_submit_manager(s: LedgerState, appraisal_id: Uuid, reviewer_id: Uuid, review: String) -> (LedgerState, Result<(), ErrorView>) {
    write_appraisal(s, appraisal_id, spec_submit_manager(appraisal_row(s.appraisals, appraisal_id), reviewer_id, review))
}

/// The stored status of the cycle of the appraisal with `id`.
pub open spec fn appraisal_cycle_status(s: LedgerState, id: Uuid) -> Option<CycleState> {
    match appraisal_row(s.appraisals, id) {
        Some(a) => cycle_status(s.cycles, a.cycle_id),
        None => None,
    }
}

/// The calibration rating: the store after it and the answer.
pub open spec fn ledger_rate(s: LedgerState, appraisal_id: Uuid, rating: Decimal, now: Timestamp) -> (LedgerState, Result<(), ErrorView>) {
    write_appraisal(s, appraisal_id, spec_rate(rating, appraisal_row(s.appraisals, appraisal_id), appraisal_cycle_status(s, appraisal_id), now))
}

/// Finalising an appraisal: the store after it and the answer.
pub open spec fn ledger_finalise(s: LedgerState, appraisal_id: Uuid) -> (LedgerState, Result<(), ErrorView>) {
    match spec_finalise(appraisal_row(s.appraisals, appraisal_id)) {
        Err(e) => (s, Err(e)),
        Ok(FinaliseStep::AlreadyFinalized) => (s, Ok(())),
        Ok(FinaliseStep::Finalise(ev)) => {
            let i = appraisal_pos(s.appraisals, appraisal_id).unwrap();
            (LedgerState {
                appraisals: s.appraisals.update(i, AppraisalRow { status: AppraisalStatus::Finalized, ..s.appraisals[i] }),
                events: s.events.push(ev),
                ..s
            }, Ok(()))
        },
    }
}

/// Creating a goal under `id`: the store after it and the answer.
pub open spec fn ledger_create_goal(s: LedgerState, n: NewGoal, id: Uuid) -> (LedgerState, Result<Uuid, ErrorView>) {
    match spec_check_new_goal(n.title@, n.weight) {
        Err(e) => (s, Err(e)),
        Ok(_) => match weight_total(s.goals, n.employee_id, n.cycle_id) {
            None => (s, Err(numeric_overflow())),
            Some(total) => match decimal_sum(total, n.weight@) {
                None => (s, Err(numeric_overflow())),
                Some(sum) => match spec_weight_cap(sum) {
                    Err(e) => (s, Err(e)),
                    Ok(_) => if goal_pos(s.goals, id) is Some {
                        (s, Err(duplicate_key()))
                    } else {
                        (LedgerState { goals: s.goals.push(spec_new_goal_row(n, id)), ..s }, Ok(id))
                    },
                },
            },
        },
    }
}

/// Closing a goal: the store after it and the answer.
pub open spec fn ledger_close_goal(s: LedgerState, goal_id: Uuid, achieved: bool) -> (LedgerState, Result<(), ErrorView>) {
    match spec_close_goal(goal_row(s.goals, goal_id), achieved) {
        Err(e) => (s, Err(e)),
        Ok(g) => (LedgerState { goals: s.goals.update(goal_pos(s.goals, goal_id).unwrap(), g), ..s }, Ok(())),
    }
}

// ── The laws ─────────────────────────────────────────────────────────────

/// A verb with its arguments.
pub enum Command {
    CreateCycle { cycle: NewCycle, id: Uuid },
    OpenCycle { cycle_id: Uuid },
    EnterCalibration { cycle_id: Uuid },
    CloseCycle { cycle_id: Uuid },
    CancelCycle { cycle_id: Uuid },
    CreateAppraisal { appraisal: NewAppraisal, id: Uuid },
    SubmitSelf { appraisal_id: Uuid, employee_id: Uuid, review: String, now: Timestamp },
    SubmitManager { appraisal_id: Uuid, reviewer_id: Uuid, review: String },
    Rate { appraisal_id: Uuid, rating: Decimal, now: Timestamp },
    FinaliseAppraisal { appraisal_id: Uuid },
    CreateGoal { goal: NewGoal, id: Uuid },
    CloseGoal { goal_id: Uuid, achieved: bool },
}

/// The store after a command.
pub open spec fn apply(s: LedgerState, c: Command) -> LedgerState {
    match c {
        Command::CreateCycle { cycle, id } => ledger_create_cycle(s, cycle, id).0,
        Command::OpenCycle { cycle_id } => ledger_move_cycle(s, cycle_id, CycleState::Draft, CycleState::Open).0,
        Command::EnterCalibration { cycle_id } => ledger_move_cycle(s, cycle_id, CycleState::Open, CycleState::Calibration).0,
        Command::CloseCycle { cycle_id } => ledger_close_cycle(s, cycle_id).0,
        Command::CancelCycle { cycle_id } => ledger_cancel_cycle(s, cycle_id).0,
        Command::CreateAppraisal { appraisal, id } => ledger_create_appraisal(s, appraisal, id).0,
        Command::SubmitSelf { appraisal_id, employee_id, review, now } => ledger_submit_self(s, appraisal_id, employee_id, review, now).0,
        Command::SubmitManager { appraisal_id, reviewer_id, review } => ledger_submit_manager(s, appraisal_id, reviewer_id, review).0,
        Command::Rate { appraisal_id, rating, now } => ledger_rate(s, appraisal_id, rating, now).0,
        Command::FinaliseAppraisal { appraisal_id } => ledger_finalise(s, appraisal_id).0,
        Command::CreateGoal { goal, id } => ledger_create_goal(s, goal, id).0,
        Command::CloseGoal { goal_id, achieved } => ledger_close_goal(s, goal_id, achieved).0,
    }
}

/// The store after a sequence of commands, from `s`.
pub open spec fn run(s: LedgerState, cs: Seq<Command>) -> LedgerState
    decreases cs.len(),
{
    if cs.len() == 0 {
        s
    } else {
        apply(run(s, cs.drop_last()), cs.last())
    }
}

/// The empty store.
pub open spec fn empty_ledger() -> LedgerState {
    LedgerState { cycles: Seq::empty(), appraisals: Seq::empty(), goals: Seq::empty(), events: Seq::empty() }
}

/// The cycle machine: draft → open → calibration → closed, and cancelled from
/// any status before closed.
pub open spec fn cycle_move_allowed(a: CycleState, b: CycleState) -> bool {
    ||| a == b
    ||| (a == CycleState::Draft && b == CycleState::Open)
    ||| (a == CycleState::Open && b == CycleState::Calibration)
    ||| (a == CycleState::Calibration && b == CycleState::Closed)
    ||| (a != CycleState::Closed && b == CycleState::Cancelled)
}

/// The appraisal machine: draft → self_review → submitted → calibrated →
/// finalized.
pub open spec fn appraisal_move_allowed(a: AppraisalStatus, b: AppraisalStatus) -> bool {
    ||| a == b
    ||| (a == AppraisalStatus::Draft && b == AppraisalStatus::SelfReview)
    ||| (a == AppraisalStatus::SelfReview && b == AppraisalStatus::Submitted)
    ||| (a == AppraisalStatus::Submitted && b == AppraisalStatus::Calibrated)
    ||| (a == AppraisalStatus::Calibrated && b == AppraisalStatus::Finalized)
}

/// Goals close from draft or active into achieved or missed.
pub open spec fn goal_move_allowed(a: GoalStatus, b: GoalStatus) -> bool {
    ||| a == b
    ||| ((a == GoalStatus::Draft || a == GoalStatus::Active) && (b == GoalStatus::Achieved || b == GoalStatus::Missed))
}

/// How one verb may change the cycles: rows are only added (as drafts), and a
/// stored row changes only its status, along the cycle machine.
pub open spec fn cycles_step(s: Seq<CycleRow>, t: Seq<CycleRow>) -> bool {
    &&& s.len() <= t.len()
    &&& forall|i: int| 0 <= i < s.len() ==> #[trigger] t[i] == CycleRow { status: t[i].status, ..s[i] }
    &&& forall|i: int| 0 <= i < s.len() ==> cycle_move_allowed(s[i].status, #[trigger] t[i].status)
    &&& forall|i: int| s.len() <= i < t.len() ==> (#[trigger] t[i]).status == CycleState::Draft
}

/// How one verb may change the appraisals: rows are only added (as drafts); a
/// stored row keeps its identity, cycle, people and deletion mark, its status
/// moves along the appraisal machine, and a finalized row never changes.
pub open spec fn appraisals_step(s: Seq<AppraisalRow>, t: Seq<AppraisalRow>) -> bool {
    &&& s.len() <= t.len()
    &&& forall|j: int| 0 <= j < s.len() ==> {
        &&& (#[trigger] t[j]).id == s[j].id
        &&& t[j].cycle_id == s[j].cycle_id
        &&& t[j].employee_id == s[j].employee_id
        &&& t[j].reviewer_id == s[j].reviewer_id
        &&& t[j].deleted == s[j].deleted
        &&& appraisal_move_allowed(s[j].status, t[j].status)
        &&& (s[j].status == AppraisalStatus::Finalized ==> t[j] == s[j])
    }
    &&& forall|j: int| s.len() <= j < t.len() ==> (#[trigger] t[j]).status == AppraisalStatus::Draft
}

/// How one verb may change the goals.
pub open spec fn goals_step(s: Seq<GoalRow>, t: Seq<GoalRow>) -> bool {
    &&& s.len() <= t.len()
    &&& forall|k: int| 0 <= k < s.len() ==> #[trigger] t[k] == GoalRow { status: t[k].status, ..s[k] }
    &&& forall|k: int| 0 <= k < s.len() ==> goal_move_allowed(s[k].status, #[trigger] t[k].status)
    &&& forall|k: int| s.len() <= k < t.len() ==> (#[trigger] t[k]).status == GoalStatus::Active
}

/// The events one verb announces: at most one, appended; a `CycleClosed`
/// exactly when a cycle moved from calibration to closed, an
/// `AppraisalFinalised` (with the appraisal's employee and rating) exactly
/// when an appraisal moved from calibrated to finalized.
pub open spec fn events_step(s: LedgerState, t: LedgerState) -> bool {
    &&& t.events.len() <= s.events.len() + 1
    &&& t.events.subrange(0, s.events.len() as int) == s.events
    &&& forall|i: int| 0 <= i < s.cycles.len() && s.cycles[i].status != CycleState::Closed
        && #[trigger] t.cycles[i].status == CycleState::Closed
        ==> t.events == s.events.push(PerformanceEvent::CycleClosed { cycle_id: s.cycles[i].id })
    &&& forall|j: int| 0 <= j < s.appraisals.len() && s.appraisals[j].status != AppraisalStatus::Finalized
        && #[trigger] t.appraisals[j].status == AppraisalStatus::Finalized
        ==> t.events == s.events.push(PerformanceEvent::AppraisalFinalised {
            appraisal_id: s.appraisals[j].id,
            employee_id: s.appraisals[j].employee_id,
            rating: s.appraisals[j].overall_rating,
        })
    &&& t.events.len() == s.events.len() + 1 ==> match t.events.last() {
        PerformanceEvent::CycleClosed { cycle_id } => exists|i: int| 0 <= i < s.cycles.len()
            && s.cycles[i].id == cycle_id
            && s.cycles[i].status == CycleState::Calibration
            && #[trigger] t.cycles[i].status == CycleState::Closed,
        PerformanceEvent::AppraisalFinalised { appraisal_id, employee_id, rating } => exists|j: int| 0 <= j < s.appraisals.len()
            && s.appraisals[j].id == appraisal_id
            && s.appraisals[j].employee_id == employee_id
            && s.appraisals[j].overall_rating == rating
            && s.appraisals[j].status == AppraisalStatus::Calibrated
            && #[trigger] t.appraisals[j].status == AppraisalStatus::Finalized,
    }
}

/// What one verb may change.
pub open spec fn ledger_step(s: LedgerState, t: LedgerState) -> bool {
    &&& cycles_step(s.cycles, t.cycles)
    &&& appraisals_step(s.appraisals, t.appraisals)
    &&& goals_step(s.goals, t.goals)
    &&& events_step(s, t)
}

/// A store left as it was takes a lawful step.
pub proof fn lemma_unchanged_step(s: LedgerState)
    ensures
        ledger_step(s, s),
{
    assert(s.events.subrange(0, s.events.len() as int) =~= s.events);
}

/// Creating a cycle keeps the invariant and takes a lawful step.
pub proof fn lemma_create_cycle_lawful(s: LedgerState, n: NewCycle, id: Uuid)
    requires
        ledger_inv(s),
    ensures
        ledger_inv(ledger_create_cycle(s, n, id).0),
        ledger_step(s, ledger_create_cycle(s, n, id).0),
{
    let t = ledger_create_cycle(s, n, id).0;
    lemma_unchanged_step(s);
    if t != s {
        assert(t.events =~= s.events);
        assert(t.events.subrange(0, s.events.len() as int) =~= s.events);
        assert forall|i: int, j: int|
            0 <= i < t.cycles.len() && 0 <= j < t.appraisals.len()
            && #[trigger] t.cycles[i].status == CycleState::Closed
            && #[trigger] t.appraisals[j].cycle_id == t.cycles[i].id
            && !t.appraisals[j].deleted
            implies t.appraisals[j].status == AppraisalStatus::Finalized by {
            assert(i < s.cycles.len());
            assert(t.cycles[i] == s.cycles[i]);
        }
    }
}

/// Moving a cycle from `from` to `to` along the machine keeps the invariant
/// and takes a lawful step.
pub proof fn lemma_move_cycle_lawful(s: LedgerState, id: Uuid, from: CycleState, to: CycleState)
    requires
        ledger_inv(s),
        cycle_move_allowed(from, to),
        to != CycleState::Closed,
    ensures
        ledger_inv(ledger_move_cycle(s, id, from, to).0),
        ledger_step(s, ledger_move_cycle(s, id, from, to).0),
{
    let t = ledger_move_cycle(s, id, from, to).0;
    lemma_unchanged_step(s);
    if let Ok(st) = spec_move_cycle(cycle_status(s.cycles, id), from, to) {
        let p = cycle_pos(s.cycles, id).unwrap();
        assert(t.events.subrange(0, s.events.len() as int) =~= s.events);
        assert forall|i: int, j: int|
            0 <= i < t.cycles.len() && 0 <= j < t.appraisals.len()
            && #[trigger] t.cycles[i].status == CycleState::Closed
            && #[trigger] t.appraisals[j].cycle_id == t.cycles[i].id
            && !t.appraisals[j].deleted
            implies t.appraisals[j].status == AppraisalStatus::Finalized by {
            assert(i != p);
            assert(t.cycles[i] == s.cycles[i]);
        }
        assert forall|i: int| 0 <= i < s.cycles.len() implies #[trigger] t.cycles[i] == CycleRow { status: t.cycles[i].status, ..s.cycles[i] } by {
        }
    }
}

/// Closing a cycle keeps the invariant (the close rule lets it close only when every
/// live appraisal in it is finalized) and takes a lawful step.
pub proof fn lemma_close_cycle_lawful(s: LedgerState, id: Uuid)
    requires
        ledger_inv(s),
    ensures
        ledger_inv(ledger_close_cycle(s, id).0),
        ledger_step(s, ledger_close_cycle(s, id).0),
{
    let t = ledger_close_cycle(s, id).0;
    lemma_unchanged_step(s);
    if spec_close_cycle(cycle_status(s.cycles, id)) == Ok::<CloseStep, ErrorView>(CloseStep::CheckAppraisals)
        && spec_close_gate(live_statuses(s.appraisals, id)) is Ok {
        let p = cycle_pos(s.cycles, id).unwrap();
        crate::performance_write_service::lemma_unfinalised_count_zero(live_statuses(s.appraisals, id));
        assert(all_finalized(live_statuses(s.appraisals, id)));
        assert(t.events.subrange(0, s.events.len() as int) =~= s.events);
        assert forall|i: int, j: int|
            0 <= i < t.cycles.len() && 0 <= j < t.appraisals.len()
            && #[trigger] t.cycles[i].status == CycleState::Closed
            && #[trigger] t.appraisals[j].cycle_id == t.cycles[i].id
            && !t.appraisals[j].deleted
            implies t.appraisals[j].status == AppraisalStatus::Finalized by {
            if i == p {
                lemma_live_statuses_finalized(s.appraisals, id, j);
            } else {
                assert(t.cycles[i] == s.cycles[i]);
            }
        }
        assert forall|i: int| 0 <= i < s.cycles.len() && s.cycles[i].status != CycleState::Closed
            && #[trigger] t.cycles[i].status == CycleState::Closed
            implies t.events == s.events.push(PerformanceEvent::CycleClosed { cycle_id: s.cycles[i].id }) by {
            assert(i == p);
        }
        assert(t.events.last() == PerformanceEvent::CycleClosed { cycle_id: id });
        assert(s.cycles[p].id == id);
        assert(t.cycles[p].status == CycleState::Closed);
    }
}

/// Cancelling a cycle keeps the invariant and takes a lawful step.
pub proof fn lemma_cancel_cycle_lawful(s: LedgerState, id: Uuid)
    requires
        ledger_inv(s),
    ensures
        ledger_inv(ledger_cancel_cycle(s, id).0),
        ledger_step(s, ledger_cancel_cycle(s, id).0),
{
    let t = ledger_cancel_cycle(s, id).0;
    lemma_unchanged_step(s);
    if spec_cancel_cycle(cycle_status(s.cycles, id)) == Ok::<CancelStep, ErrorView>(CancelStep::Cancel) {
        let p = cycle_pos(s.cycles, id).unwrap();
        assert(t.events.subrange(0, s.events.len() as int) =~= s.events);
        assert forall|i: int, j: int|
            0 <= i < t.cycles.len() && 0 <= j < t.appraisals.len()
            && #[trigger] t.cycles[i].status == CycleState::Closed
            && #[trigger] t.appraisals[j].cycle_id == t.cycles[i].id
            && !t.appraisals[j].deleted
            implies t.appraisals[j].status == AppraisalStatus::Finalized by {
            assert(i != p);
            assert(t.cycles[i] == s.cycles[i]);
        }
    }
}

/// Enrolling an employee keeps the invariant (only into an open cycle) and
/// takes a lawful step.
pub proof fn lemma_create_appraisal_lawful(s: LedgerState, n: NewAppraisal, id: Uuid)
    requires
        ledger_inv(s),
    ensures
        ledger_inv(ledger_create_appraisal(s, n, id).0),
        ledger_step(s, ledger_create_appraisal(s, n, id).0),
{
    let t = ledger_create_appraisal(s, n, id).0;
    lemma_unchanged_step(s);
    if t != s {
        let p = cycle_pos(s.cycles, n.cycle_id).unwrap();
        assert(s.cycles[p].status == CycleState::Open);
        assert(t.events.subrange(0, s.events.len() as int) =~= s.events);
        assert forall|i: int, j: int|
            0 <= i < t.cycles.len() && 0 <= j < t.appraisals.len()
            && #[trigger] t.cycles[i].status == CycleState::Closed
            && #[trigger] t.appraisals[j].cycle_id == t.cycles[i].id
            && !t.appraisals[j].deleted
            implies t.appraisals[j].status == AppraisalStatus::Finalized by {
            if j == s.appraisals.len() {
                assert(i != p);
            } else {
                assert(t.appraisals[j] == s.appraisals[j]);
            }
        }
        assert forall|j: int, k: int| 0 <= j < t.appraisals.len() && 0 <= k < t.appraisals.len() && j != k
            implies t.appraisals[j].id != t.appraisals[k].id by {
            if j < s.appraisals.len() && k < s.appraisals.len() {
            } else if j == s.appraisals.len() {
                assert(t.appraisals[k] == s.appraisals[k]);
            } else {
                assert(t.appraisals[j] == s.appraisals[j]);
            }
        }
    }
}

/// Writing back an appraisal that moved one step along the machine (not into
/// finalized), keeping its identity, cycle, people and deletion mark, keeps
/// the invariant and takes a lawful step.
pub proof fn lemma_write_appraisal_lawful(s: LedgerState, id: Uuid, row: AppraisalRow)
    requires
        ledger_inv(s),
        appraisal_pos(s.appraisals, id) is Some,
        ({
            let old_row = s.appraisals[appraisal_pos(s.appraisals, id).unwrap()];
            &&& row.id == old_row.id
            &&& row.cycle_id == old_row.cycle_id
            &&& row.employee_id == old_row.employee_id
            &&& row.reviewer_id == old_row.reviewer_id
            &&& row.deleted == old_row.deleted
            &&& old_row.status != AppraisalStatus::Finalized
            &&& row.status != AppraisalStatus::Finalized
            &&& appraisal_move_allowed(old_row.status, row.status)
        }),
    ensures
        ledger_inv(write_appraisal(s, id, Ok(row)).0),
        ledger_step(s, write_appraisal(s, id, Ok(row)).0),
{
    let t = write_appraisal(s, id, Ok(row)).0;
    let p = appraisal_pos(s.appraisals, id).unwrap();
    lemma_unchanged_step(s);
    assert(t.events.subrange(0, s.events.len() as int) =~= s.events);
    assert forall|i: int, j: int|
        0 <= i < t.cycles.len() && 0 <= j < t.appraisals.len()
        && #[trigger] t.cycles[i].status == CycleState::Closed
        && #[trigger] t.appraisals[j].cycle_id == t.cycles[i].id
        && !t.appraisals[j].deleted
        implies t.appraisals[j].status == AppraisalStatus::Finalized by {
        if j == p {
            assert(s.cycles[i].status == CycleState::Closed);
            assert(s.appraisals[p].cycle_id == s.cycles[i].id);
        } else {
            assert(t.appraisals[j] == s.appraisals[j]);
        }
    }
    assert forall|j: int, k: int| 0 <= j < t.appraisals.len() && 0 <= k < t.appraisals.len() && j != k
        implies t.appraisals[j].id != t.appraisals[k].id by {
        assert(t.appraisals[j].id == s.appraisals[j].id);
        assert(t.appraisals[k].id == s.appraisals[k].id);
    }
}

/// The self step keeps the invariant and takes a lawful step.
pub proof fn lemma_submit_self_lawful(s: LedgerState, appraisal_id: Uuid, employee_id: Uuid, review: String, now: Timestamp)
    requires
        ledger_inv(s),
    ensures
        ledger_inv(ledger_submit_self(s, appraisal_id, employee_id, review, now).0),
        ledger_step(s, ledger_submit_self(s, appraisal_id, employee_id, review, now).0),
{
    lemma_unchanged_step(s);
    if let Ok(row) = spec_submit_self(appraisal_row(s.appraisals, appraisal_id), employee_id, review, now) {
        lemma_write_appraisal_lawful(s, appraisal_id, row);
    }
}

/// The manager's step keeps the invariant and takes a lawful step.
pub proof fn lemma_submit_manager_lawful(s: LedgerState, appraisal_id: Uuid, reviewer_id: Uuid, review: String)
    requires
        ledger_inv(s),
    ensures
        ledger_inv(ledger_submit_manager(s, appraisal_id, reviewer_id, review).0),
        ledger_step(s, ledger_submit_manager(s, appraisal_id, reviewer_id, review).0),
{
    lemma_unchanged_step(s);
    if let Ok(row) = spec_submit_manager(appraisal_row(s.appraisals, appraisal_id), reviewer_id, review) {
        lemma_write_appraisal_lawful(s, appraisal_id, row);
    }
}

/// The calibration rating keeps the invariant and takes a lawful step.
pub proof fn lemma_rate_lawful(s: LedgerState, appraisal_id: Uuid, rating: Decimal, now: Timestamp)
    requires
        ledger_inv(s),
    ensures
        ledger_inv(ledger_rate(s, appraisal_id, rating, now).0),
        ledger_step(s, ledger_rate(s, appraisal_id, rating, now).0),
{
    lemma_unchanged_step(s);
    if let Ok(row) = spec_rate(rating, appraisal_row(s.appraisals, appraisal_id), appraisal_cycle_status(s, appraisal_id), now) {
        lemma_write_appraisal_lawful(s, appraisal_id, row);
    }
}

/// Finalising an appraisal keeps the invariant, takes a lawful step and
/// announces it.
pub proof fn lemma_finalise_lawful(s: LedgerState, appraisal_id: Uuid)
    requires
        ledger_inv(s),
    ensures
        ledger_inv(ledger_finalise(s, appraisal_id).0),
        ledger_step(s, ledger_finalise(s, appraisal_id).0),
{
    let t = ledger_finalise(s, appraisal_id).0;
    lemma_unchanged_step(s);
    if let Ok(FinaliseStep::Finalise(ev)) = spec_finalise(appraisal_row(s.appraisals, appraisal_id)) {
        let p = appraisal_pos(s.appraisals, appraisal_id).unwrap();
        assert(t.events.subrange(0, s.events.len() as int) =~= s.events);
        assert forall|i: int, j: int|
            0 <= i < t.cycles.len() && 0 <= j < t.appraisals.len()
            && #[trigger] t.cycles[i].status == CycleState::Closed
            && #[trigger] t.appraisals[j].cycle_id == t.cycles[i].id
            && !t.appraisals[j].deleted
            implies t.appraisals[j].status == AppraisalStatus::Finalized by {
            if j != p {
                assert(t.appraisals[j] == s.appraisals[j]);
            }
        }
        assert forall|j: int, k: int| 0 <= j < t.appraisals.len() && 0 <= k < t.appraisals.len() && j != k
            implies t.appraisals[j].id != t.appraisals[k].id by {
            assert(t.appraisals[j].id == s.appraisals[j].id);
            assert(t.appraisals[k].id == s.appraisals[k].id);
        }
        assert forall|j: int| 0 <= j < s.appraisals.len() && s.appraisals[j].status != AppraisalStatus::Finalized
            && #[trigger] t.appraisals[j].status == AppraisalStatus::Finalized
            implies t.events == s.events.push(PerformanceEvent::AppraisalFinalised {
                appraisal_id: s.appraisals[j].id,
                employee_id: s.appraisals[j].employee_id,
                rating: s.appraisals[j].overall_rating,
            }) by {
            assert(j == p);
        }
        assert(t.appraisals[p].status == AppraisalStatus::Finalized);
        assert(s.appraisals[p].id == appraisal_id);
    }
}

/// Creating a goal keeps the invariant and takes a lawful step.
pub proof fn lemma_create_goal_lawful(s: LedgerState, n: NewGoal, id: Uuid)
    requires
        ledger_inv(s),
    ensures
        ledger_inv(ledger_create_goal(s, n, id).0),
        ledger_step(s, ledger_create_goal(s, n, id).0),
{
    let t = ledger_create_goal(s, n, id).0;
    lemma_unchanged_step(s);
    if t != s {
        assert(t.events.subrange(0, s.events.len() as int) =~= s.events);
        assert forall|j: int, k: int| 0 <= j < t.goals.len() && 0 <= k < t.goals.len() && j != k
            implies t.goals[j].id != t.goals[k].id by {
            if j < s.goals.len() && k < s.goals.len() {
            } else if j == s.goals.len() {
                assert(t.goals[k] == s.goals[k]);
            } else {
                assert(t.goals[j] == s.goals[j]);
            }
        }
    }
}

/// The weight cap: after a goal is created, the weights of its employee's
/// open goals for its cycle, added in store order, come to at most 100; the
/// weight total of every other (employee, cycle) pair is unchanged.
pub proof fn lemma_create_goal_keeps_cap(s: LedgerState, n: NewGoal, id: Uuid)
    requires
        ledger_create_goal(s, n, id).1 is Ok,
    ensures
        weight_total(ledger_create_goal(s, n, id).0.goals, n.employee_id, n.cycle_id) matches Some(t)
            && !above_whole(t, 100),
        forall|e: Uuid, c: Option<Uuid>| (e != n.employee_id || c != n.cycle_id) ==>
            #[trigger] weight_total(ledger_create_goal(s, n, id).0.goals, e, c) == weight_total(s.goals, e, c),
{
    let t = ledger_create_goal(s, n, id).0.goals;
    assert(t.drop_last() =~= s.goals);
    assert(t.last() == spec_new_goal_row(n, id));
}

/// Every (employee, cycle) pair's open goal weights, added in store order,
/// come to at most 100.
pub open spec fn weights_capped(g: Seq<GoalRow>) -> bool {
    forall|e: Uuid, c: Option<Uuid>| #[trigger] weight_total(g, e, c) matches Some(t) && !above_whole(t, 100)
}

/// The empty store holds no goal weights.
pub proof fn lemma_empty_weights_capped()
    ensures
        weights_capped(empty_ledger().goals),
{
}

/// Creating a goal keeps the cap for every (employee, cycle) pair, whatever
/// it answers.
pub proof fn lemma_create_goal_keeps_all_caps(s: LedgerState, n: NewGoal, id: Uuid)
    requires
        weights_capped(s.goals),
    ensures
        weights_capped(ledger_create_goal(s, n, id).0.goals),
{
    if ledger_create_goal(s, n, id).1 is Ok {
        lemma_create_goal_keeps_cap(s, n, id);
        let t = ledger_create_goal(s, n, id).0.goals;
        assert forall|e: Uuid, c: Option<Uuid>| #[trigger] weight_total(t, e, c) matches Some(w) && !above_whole(w, 100) by {
            if e != n.employee_id || c != n.cycle_id {
                assert(weight_total(t, e, c) == weight_total(s.goals, e, c));
                assert(weight_total(s.goals, e, c) matches Some(w) && !above_whole(w, 100));
            }
        }
    }
}

/// Every verb but creating and closing a goal leaves the goals, and so every
/// weight total, as they were.
pub proof fn lemma_other_verbs_keep_goals(s: LedgerState, c: Command)
    requires
        !(c is CreateGoal) && !(c is CloseGoal),
    ensures
        apply(s, c).goals == s.goals,
{
}

/// Closing a goal keeps the invariant and takes a lawful step.
pub proof fn lemma_close_goal_lawful(s: LedgerState, goal_id: Uuid, achieved: bool)
    requires
        ledger_inv(s),
    ensures
        ledger_inv(ledger_close_goal(s, goal_id, achieved).0),
        ledger_step(s, ledger_close_goal(s, goal_id, achieved).0),
{
    let t = ledger_close_goal(s, goal_id, achieved).0;
    lemma_unchanged_step(s);
    if let Ok(g) = spec_close_goal(goal_row(s.goals, goal_id), achieved) {
        let p = goal_pos(s.goals, goal_id).unwrap();
        assert(t.events.subrange(0, s.events.len() as int) =~= s.events);
        assert forall|j: int, k: int| 0 <= j < t.goals.len() && 0 <= k < t.goals.len() && j != k
            implies t.goals[j].id != t.goals[k].id by {
            assert(t.goals[j].id == s.goals[j].id);
            assert(t.goals[k].id == s.goals[k].id);
        }
        assert forall|k: int| 0 <= k < s.goals.len() implies #[trigger] t.goals[k] == GoalRow { status: t.goals[k].status, ..s.goals[k] } by {
        }
    }
}

/// Every verb, on every store that satisfies the invariant, keeps the
/// invariant (a closed cycle holds only finalized appraisals) and takes a
/// lawful step (statuses move only along the machines, a finalized appraisal
/// never changes, events announce exactly the closes and finalisations).
pub proof fn lemma_command_lawful(s: LedgerState, c: Command)
    requires
        ledger_inv(s),
    ensures
        ledger_inv(apply(s, c)),
        ledger_step(s, apply(s, c)),
{
    match c {
        Command::CreateCycle { cycle, id } => lemma_create_cycle_lawful(s, cycle, id),
        Command::OpenCycle { cycle_id } => lemma_move_cycle_lawful(s, cycle_id, CycleState::Draft, CycleState::Open),
        Command::EnterCalibration { cycle_id } => lemma_move_cycle_lawful(s, cycle_id, CycleState::Open, CycleState::Calibration),
        Command::CloseCycle { cycle_id } => lemma_close_cycle_lawful(s, cycle_id),
        Command::CancelCycle { cycle_id } => lemma_cancel_cycle_lawful(s, cycle_id),
        Command::CreateAppraisal { appraisal, id } => lemma_create_appraisal_lawful(s, appraisal, id),
        Command::SubmitSelf { appraisal_id, employee_id, review, now } => lemma_submit_self_lawful(s, appraisal_id, employee_id, review, now),
        Command::SubmitManager { appraisal_id, reviewer_id, review } => lemma_submit_manager_lawful(s, appraisal_id, reviewer_id, review),
        Command::Rate { appraisal_id, rating, now } => lemma_rate_lawful(s, appraisal_id, rating, now),
        Command::FinaliseAppraisal { appraisal_id } => lemma_finalise_lawful(s, appraisal_id),
        Command::CreateGoal { goal, id } => lemma_create_goal_lawful(s, goal, id),
        Command::CloseGoal { goal_id, achieved } => lemma_close_goal_lawful(s, goal_id, achieved),
    }
}

/// The empty store satisfies the invariant.
pub proof fn lemma_empty_ledger_inv()
    ensures
        ledger_inv(empty_ledger()),
{
}

/// The durable predicate: after any sequence of verbs from the empty store,
/// every closed cycle holds only finalized appraisals (and identifiers stay
/// unique).
pub proof fn lemma_run_keeps_invariant(cs: Seq<Command>)
    ensures
        ledger_inv(run(empty_ledger(), cs)),
    decreases cs.len(),
{
    if cs.len() > 0 {
        lemma_run_keeps_invariant(cs.drop_last());
        lemma_command_lawful(run(empty_ledger(), cs.drop_last()), cs.last());
    }
}

/// When every live appraisal of a cycle is finalized, so is every status
/// that the close rule reads for it.
pub proof fn lemma_live_statuses_all_finalized(a: Seq<AppraisalRow>, cycle_id: Uuid)
    requires
        forall|j: int| 0 <= j < a.len() && !a[j].deleted && a[j].cycle_id == cycle_id
            ==> a[j].status == AppraisalStatus::Finalized,
    ensures
        all_finalized(live_statuses(a, cycle_id)),
    decreases a.len(),
{
    if a.len() > 0 {
        let d = a.drop_last();
        assert forall|j: int| 0 <= j < d.len() && !d[j].deleted && d[j].cycle_id == cycle_id
            implies d[j].status == AppraisalStatus::Finalized by {
            assert(d[j] == a[j]);
        }
        lemma_live_statuses_all_finalized(d, cycle_id);
        let rest = live_statuses(d, cycle_id);
        if !a.last().deleted && a.last().cycle_id == cycle_id {
            assert(a.last() == a[a.len() - 1]);
            assert forall|k: int| 0 <= k < rest.len() + 1 implies #[trigger] rest.push(a.last().status)[k] == AppraisalStatus::Finalized by {
                if k < rest.len() {
                    assert(rest[k] == AppraisalStatus::Finalized);
                }
            }
        }
    }
}

/// The close rule looks only at the closed cycle's own appraisals: a cycle in
/// calibration closes exactly when every live appraisal whose cycle is this
/// one is finalized, whatever the appraisals of other cycles are. A close
/// marks the cycle closed and announces it; a refusal is an invalid-state
/// error and changes nothing.
pub proof fn lemma_close_cycle_counts_only_its_appraisals(s: LedgerState, id: Uuid)
    requires
        ledger_inv(s),
        cycle_status(s.cycles, id) == Some(CycleState::Calibration),
    ensures
        ledger_close_cycle(s, id).1 is Ok <==> (forall|j: int| 0 <= j < s.appraisals.len()
            && !s.appraisals[j].deleted && s.appraisals[j].cycle_id == id
            ==> #[trigger] s.appraisals[j].status == AppraisalStatus::Finalized),
        ledger_close_cycle(s, id).1 is Ok ==> cycle_status(ledger_close_cycle(s, id).0.cycles, id) == Some(CycleState::Closed)
            && ledger_close_cycle(s, id).0.events == s.events.push(PerformanceEvent::CycleClosed { cycle_id: id })
            && ledger_close_cycle(s, id).0.appraisals == s.appraisals,
        ledger_close_cycle(s, id).1 is Err ==> ledger_close_cycle(s, id).0 == s
            && ledger_close_cycle(s, id).1 matches Err(ErrorView::InvalidState(_)),
{
    let a = s.appraisals;
    let live = live_statuses(a, id);
    lemma_unfinalised_count_zero(live);
    if forall|j: int| 0 <= j < a.len() && !a[j].deleted && a[j].cycle_id == id
        ==> #[trigger] a[j].status == AppraisalStatus::Finalized {
        lemma_live_statuses_all_finalized(a, id);
        let i = cycle_pos(s.cycles, id).unwrap();
        let t = ledger_close_cycle(s, id).0;
        assert forall|x: int, y: int| 0 <= x < t.cycles.len() && 0 <= y < t.cycles.len() && x != y
            implies t.cycles[x].id != t.cycles[y].id by {
            assert(s.cycles[x].id != s.cycles[y].id);
        }
        lemma_cycle_pos(t.cycles, id, i);
    } else {
        let j = choose|j: int| 0 <= j < a.len() && !a[j].deleted && a[j].cycle_id == id
            && !(#[trigger] a[j].status == AppraisalStatus::Finalized);
        if all_finalized(live) {
            lemma_live_statuses_finalized(a, id, j);
        }
    }
}

/// Enrolment looks only at the employee's appraisals in the same cycle: in an
/// open, live cycle, enrolling an employee under a fresh identifier succeeds
/// exactly when the employee has no live appraisal whose cycle is this one,
/// whatever appraisals the employee has in other cycles. It stores a draft
/// appraisal for the employee, the cycle and the assigned manager; a refusal says the
/// employee is enrolled already and changes nothing.
pub proof fn lemma_enrolment_looks_at_the_same_cycle(s: LedgerState, n: NewAppraisal, id: Uuid)
    requires
        ledger_inv(s),
        exists|i: int| 0 <= i < s.cycles.len() && #[trigger] s.cycles[i].id == n.cycle_id
            && s.cycles[i].status == CycleState::Open && !s.cycles[i].deleted,
        forall|j: int| 0 <= j < s.appraisals.len() ==> #[trigger] s.appraisals[j].id != id,
    ensures
        ledger_create_appraisal(s, n, id).1 is Ok <==> !(exists|j: int| 0 <= j < s.appraisals.len()
            && !s.appraisals[j].deleted && s.appraisals[j].cycle_id == n.cycle_id
            && #[trigger] s.appraisals[j].employee_id == n.employee_id),
        ledger_create_appraisal(s, n, id).1 is Ok ==> ledger_create_appraisal(s, n, id).1 == Ok::<Uuid, ErrorView>(id)
            && ledger_create_appraisal(s, n, id).0.appraisals == s.appraisals.push(AppraisalRow {
                id,
                cycle_id: n.cycle_id,
                employee_id: n.employee_id,
                reviewer_id: n.reviewer_id,
                status: AppraisalStatus::Draft,
                self_review: None,
                manager_review: None,
                overall_rating: None,
                submitted_at: None,
                rated_at: None,
                deleted: false,
            }),
        ledger_create_appraisal(s, n, id).1 is Err ==> ledger_create_appraisal(s, n, id).0 == s
            && ledger_create_appraisal(s, n, id).1 == Err::<Uuid, ErrorView>(
                ErrorView::Invalid("this employee already has an appraisal in this cycle"@)),
{
    let i = choose|i: int| 0 <= i < s.cycles.len() && #[trigger] s.cycles[i].id == n.cycle_id
        && s.cycles[i].status == CycleState::Open && !s.cycles[i].deleted;
    lemma_cycle_pos(s.cycles, n.cycle_id, i);
    if exists|j: int| 0 <= j < s.appraisals.len() && !s.appraisals[j].deleted
        && s.appraisals[j].cycle_id == n.cycle_id && #[trigger] s.appraisals[j].employee_id == n.employee_id {
        let j = choose|j: int| 0 <= j < s.appraisals.len() && !s.appraisals[j].deleted
            && s.appraisals[j].cycle_id == n.cycle_id && #[trigger] s.appraisals[j].employee_id == n.employee_id;
        assert(is_enrolled(s.appraisals, n.cycle_id, n.employee_id));
    }
}

/// A goal is stored only with a weight above zero: whenever creating a goal
/// succeeds, its weight is positive, and a titled goal whose weight is zero
/// or below is refused, leaving the store as it was.
pub proof fn lemma_stored_goals_have_positive_weight(s: LedgerState, n: NewGoal, id: Uuid)
    ensures
        ledger_create_goal(s, n, id).1 is Ok ==> n.weight.spec_mantissa() > 0
            && ledger_create_goal(s, n, id).0.goals.last().weight == Some(n.weight),
        !is_blank_text(n.title@) && n.weight.spec_mantissa() <= 0 ==> ledger_create_goal(s, n, id)
            == (s, Err::<Uuid, ErrorView>(ErrorView::Invalid("a goal's weight must be positive"@))),
{
}

/// A cycle is stored only with a period that ends after it starts: whenever
/// creating a cycle succeeds, its end comes later in time than its start.
pub proof fn lemma_stored_cycles_run_forward(s: LedgerState, n: NewCycle, id: Uuid)
    requires
        n.period_start.in_calendar_range(),
        n.period_end.in_calendar_range(),
    ensures
        ledger_create_cycle(s, n, id).1 is Ok ==> n.period_start.day_count() < n.period_end.day_count(),
        !is_blank_text(n.name@) && n.period_start.day_count() < n.period_end.day_count()
            && (forall|j: int| 0 <= j < s.cycles.len() ==> #[trigger] s.cycles[j].id != id)
            ==> ledger_create_cycle(s, n, id).1 == Ok::<Uuid, ErrorView>(id),
{
}

/// Closing a stored goal succeeds exactly when it is live and in draft or
/// active; it then becomes achieved (or missed, when not achieved) and no
/// other goal changes. Otherwise the store stays as it was.
pub proof fn lemma_close_goal_on_open_goals(s: LedgerState, goal_id: Uuid, achieved: bool, i: int)
    requires
        ledger_inv(s),
        0 <= i < s.goals.len(),
        s.goals[i].id == goal_id,
    ensures
        ledger_close_goal(s, goal_id, achieved).1 is Ok <==> (!s.goals[i].deleted
            && (s.goals[i].status == GoalStatus::Draft || s.goals[i].status == GoalStatus::Active)),
        ledger_close_goal(s, goal_id, achieved).1 is Ok ==> ledger_close_goal(s, goal_id, achieved).0.goals
            == s.goals.update(i, GoalRow {
                status: if achieved { GoalStatus::Achieved } else { GoalStatus::Missed },
                ..s.goals[i]
            }),
        ledger_close_goal(s, goal_id, achieved).1 is Err ==> ledger_close_goal(s, goal_id, achieved).0 == s,
{
    lemma_goal_pos(s.goals, goal_id, i);
}

/// The employee's self step on a stored appraisal: it succeeds exactly when
/// the appraisal is live, a draft, and the employee's own; it then records
/// the review and the time at that appraisal, moves it to self_review, and
/// changes nothing else. A refusal changes nothing.
pub proof fn lemma_self_step_on_the_store(s: LedgerState, appraisal_id: Uuid, employee_id: Uuid, review: String, now: Timestamp, i: int)
    requires
        ledger_inv(s),
        0 <= i < s.appraisals.len(),
        s.appraisals[i].id == appraisal_id,
    ensures
        ledger_submit_self(s, appraisal_id, employee_id, review, now).1 is Ok <==> (!s.appraisals[i].deleted
            && s.appraisals[i].employee_id == employee_id && s.appraisals[i].status == AppraisalStatus::Draft),
        ledger_submit_self(s, appraisal_id, employee_id, review, now).1 is Ok
            ==> ledger_submit_self(s, appraisal_id, employee_id, review, now).0 == (LedgerState {
                appraisals: s.appraisals.update(i, AppraisalRow {
                    self_review: Some(review),
                    submitted_at: Some(now),
                    status: AppraisalStatus::SelfReview,
                    ..s.appraisals[i]
                }),
                ..s
            }),
        ledger_submit_self(s, appraisal_id, employee_id, review, now).1 is Err
            ==> ledger_submit_self(s, appraisal_id, employee_id, review, now).0 == s,
{
    lemma_appraisal_pos(s.appraisals, appraisal_id, i);
}

/// The manager's step on a stored appraisal: it succeeds exactly when the
/// appraisal is live, in self_review, and assigned to this manager; it then
/// records the assessment and moves it to submitted. A refusal changes
/// nothing.
pub proof fn lemma_manager_step_on_the_store(s: LedgerState, appraisal_id: Uuid, reviewer_id: Uuid, review: String, i: int)
    requires
        ledger_inv(s),
        0 <= i < s.appraisals.len(),
        s.appraisals[i].id == appraisal_id,
    ensures
        ledger_submit_manager(s, appraisal_id, reviewer_id, review).1 is Ok <==> (!s.appraisals[i].deleted
            && s.appraisals[i].reviewer_id == reviewer_id && s.appraisals[i].status == AppraisalStatus::SelfReview),
        ledger_submit_manager(s, appraisal_id, reviewer_id, review).1 is Ok
            ==> ledger_submit_manager(s, appraisal_id, reviewer_id, review).0 == (LedgerState {
                appraisals: s.appraisals.update(i, AppraisalRow {
                    manager_review: Some(review),
                    status: AppraisalStatus::Submitted,
                    ..s.appraisals[i]
                }),
                ..s
            }),
        ledger_submit_manager(s, appraisal_id, reviewer_id, review).1 is Err
            ==> ledger_submit_manager(s, appraisal_id, reviewer_id, review).0 == s,
{
    lemma_appraisal_pos(s.appraisals, appraisal_id, i);
}

/// The calibration rating on a stored appraisal whose cycle is stored: it is
/// taken exactly when the rating is zero or above, the appraisal is live and
/// submitted, and its own cycle is in calibration; it then records the rating
/// and the time and moves the appraisal to calibrated. A refusal changes
/// nothing.
pub proof fn lemma_rating_on_the_store(s: LedgerState, appraisal_id: Uuid, rating: Decimal, now: Timestamp, i: int, k: int)
    requires
        ledger_inv(s),
        0 <= i < s.appraisals.len(),
        s.appraisals[i].id == appraisal_id,
        0 <= k < s.cycles.len(),
        s.cycles[k].id == s.appraisals[i].cycle_id,
    ensures
        ledger_rate(s, appraisal_id, rating, now).1 is Ok <==> (rating.spec_mantissa() >= 0 && !s.appraisals[i].deleted
            && s.appraisals[i].status == AppraisalStatus::Submitted && s.cycles[k].status == CycleState::Calibration),
        ledger_rate(s, appraisal_id, rating, now).1 is Ok
            ==> ledger_rate(s, appraisal_id, rating, now).0 == (LedgerState {
                appraisals: s.appraisals.update(i, AppraisalRow {
                    overall_rating: Some(rating),
                    rated_at: Some(now),
                    status: AppraisalStatus::Calibrated,
                    ..s.appraisals[i]
                }),
                ..s
            }),
        ledger_rate(s, appraisal_id, rating, now).1 is Err ==> ledger_rate(s, appraisal_id, rating, now).0 == s,
{
    lemma_appraisal_pos(s.appraisals, appraisal_id, i);
    lemma_cycle_pos(s.cycles, s.appraisals[i].cycle_id, k);
}

/// Finalising a stored appraisal: a live calibrated one becomes finalized and
/// is announced with its employee and rating; a live finalized one is left as
/// it is; anything else is refused and changes nothing.
pub proof fn lemma_finalise_on_the_store(s: LedgerState, appraisal_id: Uuid, i: int)
    requires
        ledger_inv(s),
        0 <= i < s.appraisals.len(),
        s.appraisals[i].id == appraisal_id,
    ensures
        ledger_finalise(s, appraisal_id).1 is Ok <==> (!s.appraisals[i].deleted
            && (s.appraisals[i].status == AppraisalStatus::Calibrated || s.appraisals[i].status == AppraisalStatus::Finalized)),
        !s.appraisals[i].deleted && s.appraisals[i].status == AppraisalStatus::Calibrated
            ==> ledger_finalise(s, appraisal_id).0 == (LedgerState {
                appraisals: s.appraisals.update(i, AppraisalRow { status: AppraisalStatus::Finalized, ..s.appraisals[i] }),
                events: s.events.push(PerformanceEvent::AppraisalFinalised {
                    appraisal_id,
                    employee_id: s.appraisals[i].employee_id,
                    rating: s.appraisals[i].overall_rating,
                }),
                ..s
            }),
        !(!s.appraisals[i].deleted && s.appraisals[i].status == AppraisalStatus::Calibrated)
            ==> ledger_finalise(s, appraisal_id).0 == s,
{
    lemma_appraisal_pos(s.appraisals, appraisal_id, i);
}

/// Moving a stored cycle succeeds exactly when it is in the status it moves
/// from; that cycle then has the status it moves to, and nothing else
/// changes. A refusal changes nothing.
pub proof fn lemma_move_cycle_on_the_store(s: LedgerState, id: Uuid, from: CycleState, to: CycleState, i: int)
    requires
        ledger_inv(s),
        0 <= i < s.cycles.len(),
        s.cycles[i].id == id,
    ensures
        ledger_move_cycle(s, id, from, to).1 is Ok <==> s.cycles[i].status == from,
        ledger_move_cycle(s, id, from, to).1 is Ok ==> ledger_move_cycle(s, id, from, to).0 == (LedgerState {
            cycles: s.cycles.update(i, CycleRow { status: to, ..s.cycles[i] }),
            ..s
        }),
        ledger_move_cycle(s, id, from, to).1 is Err ==> ledger_move_cycle(s, id, from, to).0 == s,
{
    lemma_cycle_pos(s.cycles, id, i);
}

/// Cancel is reachable from every status before closed: on a stored cycle
/// that is not closed, cancelling succeeds and leaves it cancelled.
pub proof fn lemma_cancel_before_close(s: LedgerState, id: Uuid)
    requires
        ledger_inv(s),
        cycle_status(s.cycles, id) matches Some(st) && st != CycleState::Closed,
    ensures
        ledger_cancel_cycle(s, id).1 is Ok,
        cycle_status(ledger_cancel_cycle(s, id).0.cycles, id) == Some(CycleState::Cancelled),
{
    let i = cycle_pos(s.cycles, id).unwrap();
    let t = ledger_cancel_cycle(s, id).0;
    assert(t.cycles.len() == s.cycles.len());
    assert forall|a: int, b: int| 0 <= a < t.cycles.len() && 0 <= b < t.cycles.len() && a != b
        implies t.cycles[a].id != t.cycles[b].id by {
        assert(s.cycles[a].id != s.cycles[b].id);
    }
    assert(t.cycles[i].id == id);
    lemma_cycle_pos(t.cycles, id, i);
}

/// Closing, cancelling and finalising are idempotent: once a verb has
/// succeeded, running it again answers `Ok` and changes nothing.
pub proof fn lemma_repeated_verbs_change_nothing(s: LedgerState, cycle_id: Uuid, appraisal_id: Uuid)
    requires
        ledger_inv(s),
    ensures
        ledger_close_cycle(s, cycle_id).1 is Ok ==> ledger_close_cycle(ledger_close_cycle(s, cycle_id).0, cycle_id)
            == (ledger_close_cycle(s, cycle_id).0, Ok::<(), ErrorView>(())),
        ledger_cancel_cycle(s, cycle_id).1 is Ok ==> ledger_cancel_cycle(ledger_cancel_cycle(s, cycle_id).0, cycle_id)
            == (ledger_cancel_cycle(s, cycle_id).0, Ok::<(), ErrorView>(())),
        ledger_finalise(s, appraisal_id).1 is Ok ==> ledger_finalise(ledger_finalise(s, appraisal_id).0, appraisal_id)
            == (ledger_finalise(s, appraisal_id).0, Ok::<(), ErrorView>(())),
{
    if ledger_close_cycle(s, cycle_id).1 is Ok && cycle_status(s.cycles, cycle_id) != Some(CycleState::Closed) {
        let i = cycle_pos(s.cycles, cycle_id).unwrap();
        let t = ledger_close_cycle(s, cycle_id).0;
        assert forall|a: int, b: int| 0 <= a < t.cycles.len() && 0 <= b < t.cycles.len() && a != b
            implies t.cycles[a].id != t.cycles[b].id by {
            assert(s.cycles[a].id != s.cycles[b].id);
        }
        lemma_cycle_pos(t.cycles, cycle_id, i);
    }
    if ledger_cancel_cycle(s, cycle_id).1 is Ok && cycle_status(s.cycles, cycle_id) != Some(CycleState::Cancelled) {
        lemma_cancel_before_close(s, cycle_id);
    }
    if ledger_finalise(s, appraisal_id).1 is Ok && appraisal_row(s.appraisals, appraisal_id).unwrap().status != AppraisalStatus::Finalized {
        let i = appraisal_pos(s.appraisals, appraisal_id).unwrap();
        let t = ledger_finalise(s, appraisal_id).0;
        assert forall|a: int, b: int| 0 <= a < t.appraisals.len() && 0 <= b < t.appraisals.len() && a != b
            implies t.appraisals[a].id != t.appraisals[b].id by {
            assert(s.appraisals[a].id != s.appraisals[b].id);
        }
        lemma_appraisal_pos(t.appraisals, appraisal_id, i);
    }
}

/// A closed cycle stays closed, and a finalized appraisal stays exactly as it
/// is, whatever verb runs next.
pub proof fn lemma_closed_and_finalized_are_final(s: LedgerState, c: Command)
    requires
        ledger_inv(s),
    ensures
        forall|i: int| 0 <= i < s.cycles.len() && s.cycles[i].status == CycleState::Closed
            ==> #[trigger] apply(s, c).cycles[i] == s.cycles[i],
        forall|j: int| 0 <= j < s.appraisals.len() && s.appraisals[j].status == AppraisalStatus::Finalized
            ==> #[trigger] apply(s, c).appraisals[j] == s.appraisals[j],
{
    lemma_command_lawful(s, c);
    let t = apply(s, c);
    assert forall|i: int| 0 <= i < s.cycles.len() && s.cycles[i].status == CycleState::Closed
        implies #[trigger] t.cycles[i] == s.cycles[i] by {
        assert(cycle_move_allowed(s.cycles[i].status, t.cycles[i].status));
        assert(t.cycles[i] == CycleRow { status: t.cycles[i].status, ..s.cycles[i] });
    }
}

// ── The store ────────────────────────────────────────────────────────────

/// The in-memory store: the rows of the three tables and the events announced.
pub struct PerformanceLedger {
    cycles: Vec<CycleRow>,
    appraisals: Vec<AppraisalRow>,
    goals: Vec<GoalRow>,
    events: Vec<PerformanceEvent>,
}

impl PerformanceLedger {
    /// What the store holds.
    pub closed spec fn state(&self) -> LedgerState {
        LedgerState { cycles: self.cycles@, appraisals: self.appraisals@, goals: self.goals@, events: self.events@ }
    }

    /// The store's invariant holds.
    pub open spec fn wf(&self) -> bool {
        ledger_inv(self.state())
    }

    /// An empty store.
    pub fn new() -> (r: PerformanceLedger)
        ensures
            r.state() == empty_ledger(),
            r.wf(),
    {
        let r = PerformanceLedger { cycles: Vec::new(), appraisals: Vec::new(), goals: Vec::new(), events: Vec::new() };
        proof {
            assert(r.state().cycles =~= Seq::<CycleRow>::empty());
            assert(r.state().appraisals =~= Seq::<AppraisalRow>::empty());
            assert(r.state().goals =~= Seq::<GoalRow>::empty());
            assert(r.state().events =~= Seq::<PerformanceEvent>::empty());
        }
        r
    }

    fn find_cycle(&self, id: Uuid) -> (r: Option<usize>)
        requires
            self.wf(),
        ensures
            r matches Some(i) ==> cycle_pos(self.state().cycles, id) == Some(i as int) && i < self.state().cycles.len(),
            r is None ==> cycle_pos(self.state().cycles, id) is None,
    {
        let mut i: usize = 0;
        while i < self.cycles.len()
            invariant
                self.wf(),
                i <= self.cycles.len(),
                forall|k: int| 0 <= k < i ==> self.cycles@[k].id != id,
            decreases self.cycles.len() - i,
        {
            if self.cycles[i].id == id {
                proof { lemma_cycle_pos(self.cycles@, id, i as int); }
                return Some(i);
            }
            i = i + 1;
        }
        None
    }

    fn find_appraisal(&self, id: Uuid) -> (r: Option<usize>)
        requires
            self.wf(),
        ensures
            r matches Some(i) ==> appraisal_pos(self.state().appraisals, id) == Some(i as int) && i < self.state().appraisals.len(),
            r is None ==> appraisal_pos(self.state().appraisals, id) is None,
    {
        let mut i: usize = 0;
        while i < self.appraisals.len()
            invariant
                self.wf(),
                i <= self.appraisals.len(),
                forall|k: int| 0 <= k < i ==> self.appraisals@[k].id != id,
            decreases self.appraisals.len() - i,
        {
            if self.appraisals[i].id == id {
                proof { lemma_appraisal_pos(self.appraisals@, id, i as int); }
                return Some(i);
            }
            i = i + 1;
        }
        None
    }

    fn find_goal(&self, id: Uuid) -> (r: Option<usize>)
        requires
            self.wf(),
        ensures
            r matches Some(i) ==> goal_pos(self.state().goals, id) == Some(i as int) && i < self.state().goals.len(),
            r is None ==> goal_pos(self.state().goals, id) is None,
    {
        let mut i: usize = 0;
        while i < self.goals.len()
            invariant
                self.wf(),
                i <= self.goals.len(),
                forall|k: int| 0 <= k < i ==> self.goals@[k].id != id,
            decreases self.goals.len() - i,
        {
            if self.goals[i].id == id {
                proof { lemma_goal_pos(self.goals@, id, i as int); }
                return Some(i);
            }
            i = i + 1;
        }
        None
    }

    /// The stored cycle with `id`.
    pub fn cycle(&self, id: Uuid) -> (r: Option<&CycleRow>)
        requires
            self.wf(),
        ensures
            match cycle_pos(self.state().cycles, id) {
                Some(i) => r == Some(&self.state().cycles[i]),
                None => r is None,
            },
    {
        match self.find_cycle(id) {
            Some(i) => Some(&self.cycles[i]),
            None => None,
        }
    }

    /// The stored appraisal with `id`.
    pub fn appraisal(&self, id: Uuid) -> (r: Option<&AppraisalRow>)
        requires
            self.wf(),
        ensures
            match appraisal_row(self.state().appraisals, id) {
                Some(a) => r == Some(&a),
                None => r is None,
            },
    {
        match self.find_appraisal(id) {
            Some(i) => Some(&self.appraisals[i]),
            None => None,
        }
    }

    /// The stored goal with `id`.
    pub fn goal(&self, id: Uuid) -> (r: Option<&GoalRow>)
        requires
            self.wf(),
        ensures
            match goal_row(self.state().goals, id) {
                Some(g) => r == Some(&g),
                None => r is None,
            },
    {
        match self.find_goal(id) {
            Some(i) => Some(&self.goals[i]),
            None => None,
        }
    }

    /// Every event announced so far, oldest first.
    pub fn events(&self) -> (r: &Vec<PerformanceEvent>)
        ensures
            r@ == self.state().events,
    {
        &self.events
    }

    fn set_cycle_status(&mut self, i: usize, st: CycleState)
        requires
            i < old(self).state().cycles.len(),
        ensures
            final(self).state() == set_cycle_status(old(self).state(), i as int, st),
    {
        let mut row = self.cycles[i].clone();
        row.status = st;
        self.cycles.set(i, row);
        proof {
            assert(self.state().cycles =~= set_cycle_status(old(self).state(), i as int, st).cycles);
        }
    }

    /// Creates a draft cycle under `id`.
    pub fn create_cycle(&mut self, n: NewCycle, id: Uuid) -> (r: Result<Uuid, PerformanceError>)
        requires
            old(self).wf(),
        ensures
            final(self).wf(),
            (final(self).state(), outcome(r)) == ledger_create_cycle(old(self).state(), n, id),
    {
        let ghost n0 = n;
        proof { lemma_create_cycle_lawful(self.state(), n0, id); }
        let row = match prepare_cycle(n, id) {
            Ok(row) => row,
            Err(e) => return Err(e),
        };
        if self.find_cycle(id).is_some() {
            return Err(PerformanceError::Db(String::from_str("duplicate key")));
        }
        self.cycles.push(row);
        proof {
            assert(self.state().cycles =~= ledger_create_cycle(old(self).state(), n0, id).0.cycles);
        }
        Ok(id)
    }

    fn move_cycle(&mut self, id: Uuid, from: CycleState, to: CycleState) -> (r: Result<(), PerformanceError>)
        requires
            old(self).wf(),
            cycle_move_allowed(from, to),
            to != CycleState::Closed,
            (from == CycleState::Draft && to == CycleState::Open) || (from == CycleState::Open && to == CycleState::Calibration),
        ensures
            final(self).wf(),
            (final(self).state(), outcome(r)) == ledger_move_cycle(old(self).state(), id, from, to),
    {
        proof { lemma_move_cycle_lawful(self.state(), id, from, to); }
        let pos = self.find_cycle(id);
        let current = match pos {
            Some(i) => Some(self.cycles[i].status),
            None => None,
        };
        let decided = if from == CycleState::Draft { decide_open_cycle(current) } else { decide_enter_calibration(current) };
        match decided {
            Err(e) => Err(e),
            Ok(st) => {
                self.set_cycle_status(pos.unwrap(), st);
                Ok(())
            },
        }
    }

    /// Opens a draft cycle (appraisals may enroll).
    pub fn open_cycle(&mut self, cycle_id: Uuid) -> (r: Result<(), PerformanceError>)
        requires
            old(self).wf(),
        ensures
            final(self).wf(),
            (final(self).state(), outcome(r)) == ledger_move_cycle(old(self).state(), cycle_id, CycleState::Draft, CycleState::Open),
    {
        self.move_cycle(cycle_id, CycleState::Draft, CycleState::Open)
    }

    /// Moves an open cycle into calibration.
    pub fn enter_calibration(&mut self, cycle_id: Uuid) -> (r: Result<(), PerformanceError>)
        requires
            old(self).wf(),
        ensures
            final(self).wf(),
            (final(self).state(), outcome(r)) == ledger_move_cycle(old(self).state(), cycle_id, CycleState::Open, CycleState::Calibration),
    {
        self.move_cycle(cycle_id, CycleState::Open, CycleState::Calibration)
    }

    fn live_statuses_of(&self, cycle_id: Uuid) -> (r: Vec<AppraisalStatus>)
        ensures
            r@ == live_statuses(self.state().appraisals, cycle_id),
    {
        let mut r: Vec<AppraisalStatus> = Vec::new();
        let mut i: usize = 0;
        while i < self.appraisals.len()
            invariant
                i <= self.appraisals.len(),
                r@ == live_statuses(self.appraisals@.take(i as int), cycle_id),
            decreases self.appraisals.len() - i,
        {
            proof {
                assert(self.appraisals@.take(i + 1).drop_last() =~= self.appraisals@.take(i as int));
            }
            if !self.appraisals[i].deleted && self.appraisals[i].cycle_id == cycle_id {
                r.push(self.appraisals[i].status);
            }
            i = i + 1;
        }
        proof {
            assert(self.appraisals@.take(self.appraisals.len() as int) =~= self.appraisals@);
        }
        r
    }

    /// Closes the cycle: the one finalised predicate refuses while any live
    /// appraisal in it is not finalized; a closed cycle stays closed.
    pub fn close_cycle(&mut self, cycle_id: Uuid) -> (r: Result<(), PerformanceError>)
        requires
            old(self).wf(),
        ensures
            final(self).wf(),
            (final(self).state(), outcome(r)) == ledger_close_cycle(old(self).state(), cycle_id),
    {
        proof { lemma_close_cycle_lawful(self.state(), cycle_id); }
        let pos = self.find_cycle(cycle_id);
        let current = match pos {
            Some(i) => Some(self.cycles[i].status),
            None => None,
        };
        match decide_close_cycle(current) {
            Err(e) => Err(e),
            Ok(CloseStep::AlreadyClosed) => Ok(()),
            Ok(CloseStep::CheckAppraisals) => {
                let statuses = self.live_statuses_of(cycle_id);
                match decide_close_gate(&statuses) {
                    Err(e) => Err(e),
                    Ok(()) => {
                        self.set_cycle_status(pos.unwrap(), CycleState::Closed);
                        self.events.push(PerformanceEvent::CycleClosed { cycle_id });
                        Ok(())
                    },
                }
            },
        }
    }

    /// Cancels the cycle: reachable from every status before closed.
    pub fn cancel_cycle(&mut self, cycle_id: Uuid) -> (r: Result<(), PerformanceError>)
        requires
            old(self).wf(),
        ensures
            final(self).wf(),
            (final(self).state(), outcome(r)) == ledger_cancel_cycle(old(self).state(), cycle_id),
    {
        proof { lemma_cancel_cycle_lawful(self.state(), cycle_id); }
        let pos = self.find_cycle(cycle_id);
        let current = match pos {
            Some(i) => Some(self.cycles[i].status),
            None => None,
        };
        match decide_cancel_cycle(current) {
            Err(e) => Err(e),
            Ok(CancelStep::AlreadyCancelled) => Ok(()),
            Ok(CancelStep::Cancel) => {
                self.set_cycle_status(pos.unwrap(), CycleState::Cancelled);
                Ok(())
            },
        }
    }

    fn is_enrolled(&self, cycle_id: Uuid, employee_id: Uuid) -> (r: bool)
        ensures
            r == is_enrolled(self.state().appraisals, cycle_id, employee_id),
    {
        let mut i: usize = 0;
        while i < self.appraisals.len()
            invariant
                i <= self.appraisals.len(),
                forall|k: int| 0 <= k < i ==> !(!self.appraisals@[k].deleted && self.appraisals@[k].cycle_id == cycle_id
                    && self.appraisals@[k].employee_id == employee_id),
            decreases self.appraisals.len() - i,
        {
            let a = &self.appraisals[i];
            if !a.deleted && a.cycle_id == cycle_id && a.employee_id == employee_id {
                return true;
            }
            i = i + 1;
        }
        false
    }

    /// Enrolls an employee in an open cycle, under `id`.
    pub fn create_appraisal(&mut self, n: NewAppraisal, id: Uuid) -> (r: Result<Uuid, PerformanceError>)
        requires
            old(self).wf(),
        ensures
            final(self).wf(),
            (final(self).state(), outcome(r)) == ledger_create_appraisal(old(self).state(), n, id),
    {
        proof { lemma_create_appraisal_lawful(self.state(), n, id); }
        let cycle = match self.find_cycle(n.cycle_id) {
            Some(i) => Some((self.cycles[i].status, self.cycles[i].deleted)),
            None => None,
        };
        let enrolled = self.is_enrolled(n.cycle_id, n.employee_id);
        let row = match prepare_appraisal(&n, id, cycle, enrolled) {
            Ok(row) => row,
            Err(e) => return Err(e),
        };
        if self.find_appraisal(id).is_some() {
            return Err(PerformanceError::Db(String::from_str("duplicate key")));
        }
        self.appraisals.push(row);
        proof {
            assert(self.state().appraisals =~= ledger_create_appraisal(old(self).state(), n, id).0.appraisals);
        }
        Ok(id)
    }

    fn write_appraisal(&mut self, i: usize, id: Uuid, decided: Result<AppraisalRow, PerformanceError>) -> (r: Result<(), PerformanceError>)
        requires
            old(self).wf(),
            decided is Ok ==> appraisal_pos(old(self).state().appraisals, id) == Some(i as int) && i < old(self).state().appraisals.len(),
        ensures
            (final(self).state(), outcome(r)) == write_appraisal(old(self).state(), id, outcome(decided)),
    {
        match decided {
            Err(e) => Err(e),
            Ok(row) => {
                self.appraisals.set(i, row);
                proof {
                    assert(self.state().appraisals =~= write_appraisal(old(self).state(), id, outcome(decided)).0.appraisals);
                }
                Ok(())
            },
        }
    }

    /// The employee's self step: writes the self review and moves
    /// draft → self_review.
    pub fn submit_self(&mut self, appraisal_id: Uuid, employee_id: Uuid, review: String, now: Timestamp) -> (r: Result<(), PerformanceError>)
        requires
            old(self).wf(),
        ensures
            final(self).wf(),
            (final(self).state(), outcome(r)) == ledger_submit_self(old(self).state(), appraisal_id, employee_id, review, now),
    {
        let ghost review0 = review;
        proof { lemma_submit_self_lawful(self.state(), appraisal_id, employee_id, review0, now); }
        let pos = self.find_appraisal(appraisal_id);
        let decided = match pos {
            Some(i) => decide_submit_self(Some(&self.appraisals[i]), employee_id, review, now),
            None => decide_submit_self(None, employee_id, review, now),
        };
        let i = match pos { Some(i) => i, None => 0 };
        self.write_appraisal(i, appraisal_id, decided)
    }

    /// The manager's step: requires the self step done; writes the manager's
    /// assessment and moves self_review → submitted.
    pub fn submit_manager(&mut self, appraisal_id: Uuid, reviewer_id: Uuid, review: String) -> (r: Result<(), PerformanceError>)
        requires
            old(self).wf(),
        ensures
            final(self).wf(),
            (final(self).state(), outcome(r)) == ledger_submit_manager(old(self).state(), appraisal_id, reviewer_id, review),
    {
        let ghost review0 = review;
        proof { lemma_submit_manager_lawful(self.state(), appraisal_id, reviewer_id, review0); }
        let pos = self.find_appraisal(appraisal_id);
        let decided = match pos {
            Some(i) => decide_submit_manager(Some(&self.appraisals[i]), reviewer_id, review),
            None => decide_submit_manager(None, reviewer_id, review),
        };
        let i = match pos { Some(i) => i, None => 0 };
        self.write_appraisal(i, appraisal_id, decided)
    }

    /// The calibration rating (the cycle must be in calibration).
    pub fn rate(&mut self, appraisal_id: Uuid, rating: Decimal, now: Timestamp) -> (r: Result<(), PerformanceError>)
        requires
            old(self).wf(),
        ensures
            final(self).wf(),
            (final(self).state(), outcome(r)) == ledger_rate(old(self).state(), appraisal_id, rating, now),
    {
        proof { lemma_rate_lawful(self.state(), appraisal_id, rating, now); }
        let pos = self.find_appraisal(appraisal_id);
        let decided = match pos {
            Some(i) => {
                let cycle = match self.find_cycle(self.appraisals[i].cycle_id) {
                    Some(c) => Some(self.cycles[c].status),
                    None => None,
                };
                decide_rate(rating, Some(&self.appraisals[i]), cycle, now)
            },
            None => decide_rate(rating, None, None, now),
        };
        let i = match pos { Some(i) => i, None => 0 };
        self.write_appraisal(i, appraisal_id, decided)
    }

    /// The per-appraisal finalise: a calibrated appraisal becomes finalized
    /// and is announced; a finalized one stays as it is.
    pub fn finalise_appraisal(&mut self, appraisal_id: Uuid) -> (r: Result<(), PerformanceError>)
        requires
            old(self).wf(),
        ensures
            final(self).wf(),
            (final(self).state(), outcome(r)) == ledger_finalise(old(self).state(), appraisal_id),
    {
        proof { lemma_finalise_lawful(self.state(), appraisal_id); }
        let pos = self.find_appraisal(appraisal_id);
        let decided = match pos {
            Some(i) => decide_finalise(Some(&self.appraisals[i])),
            None => decide_finalise(None),
        };
        match decided {
            Err(e) => Err(e),
            Ok(FinaliseStep::AlreadyFinalized) => Ok(()),
            Ok(FinaliseStep::Finalise(ev)) => {
                let i = pos.unwrap();
                let mut row = self.appraisals[i].clone();
                row.status = AppraisalStatus::Finalized;
                self.appraisals.set(i, row);
                self.events.push(ev);
                proof {
                    assert(self.state().appraisals =~= ledger_finalise(old(self).state(), appraisal_id).0.appraisals);
                }
                Ok(())
            },
        }
    }

    fn weight_total(&self, employee_id: Uuid, cycle_id: Option<Uuid>) -> (r: Option<Decimal>)
        ensures
            match weight_total(self.state().goals, employee_id, cycle_id) {
                Some(t) => r matches Some(d) && d@ == t,
                None => r is None,
            },
    {
        let mut total = Decimal::zero();
        let mut i: usize = 0;
        while i < self.goals.len()
            invariant
                i <= self.goals.len(),
                weight_total(self.goals@.take(i as int), employee_id, cycle_id) == Some(total@),
            decreases self.goals.len() - i,
        {
            proof {
                assert(self.goals@.take(i + 1).drop_last() =~= self.goals@.take(i as int));
            }
            let g = &self.goals[i];
            if !g.deleted && (g.status == GoalStatus::Draft || g.status == GoalStatus::Active)
                && g.employee_id == employee_id && g.cycle_id == cycle_id {
                match g.weight {
                    Some(w) => {
                        match crate::values::checked_add(&total, &w) {
                            Some(t) => { total = t; },
                            None => {
                                proof {
                                    lemma_weight_total_none_stays(self.goals@, employee_id, cycle_id, i as int + 1);
                                }
                                return None;
                            },
                        }
                    },
                    None => {},
                }
            }
            i = i + 1;
        }
        proof {
            assert(self.goals@.take(self.goals.len() as int) =~= self.goals@);
        }
        Some(total)
    }

    /// Creates an active goal under `id`, within the weight cap.
    pub fn create_goal(&mut self, n: NewGoal, id: Uuid) -> (r: Result<Uuid, PerformanceError>)
        requires
            old(self).wf(),
        ensures
            final(self).wf(),
            (final(self).state(), outcome(r)) == ledger_create_goal(old(self).state(), n, id),
    {
        let ghost n0 = n;
        proof { lemma_create_goal_lawful(self.state(), n0, id); }
        match check_new_goal(&n) {
            Err(e) => return Err(e),
            Ok(()) => {},
        }
        let total = match self.weight_total(n.employee_id, n.cycle_id) {
            Some(t) => t,
            None => return Err(PerformanceError::Db(String::from_str("numeric overflow"))),
        };
        match check_weight_cap(&total, &n.weight) {
            None => return Err(PerformanceError::Db(String::from_str("numeric overflow"))),
            Some(Err(e)) => return Err(e),
            Some(Ok(())) => {},
        }
        if self.find_goal(id).is_some() {
            return Err(PerformanceError::Db(String::from_str("duplicate key")));
        }
        self.goals.push(new_goal_row(n, id));
        proof {
            assert(self.state().goals =~= ledger_create_goal(old(self).state(), n0, id).0.goals);
        }
        Ok(id)
    }

    /// Closes a goal (achieved or missed).
    pub fn close_goal(&mut self, goal_id: Uuid, achieved: bool) -> (r: Result<(), PerformanceError>)
        requires
            old(self).wf(),
        ensures
            final(self).wf(),
            (final(self).state(), outcome(r)) == ledger_close_goal(old(self).state(), goal_id, achieved),
    {
        proof { lemma_close_goal_lawful(self.state(), goal_id, achieved); }
        let pos = self.find_goal(goal_id);
        let decided = match pos {
            Some(i) => decide_close_goal(Some(&self.goals[i]), achieved),
            None => decide_close_goal(None, achieved),
        };
        match decided {
            Err(e) => Err(e),
            Ok(g) => {
                self.goals.set(pos.unwrap(), g);
                proof {
                    assert(self.state().goals =~= ledger_close_goal(old(self).state(), goal_id, achieved).0.goals);
                }
                Ok(())
            },
        }
    }
}

/// Once the weight total overflows on a prefix of the goals, it stays
/// overflowed on every longer prefix.
pub proof fn lemma_weight_total_none_stays(g: Seq<GoalRow>, employee_id: Uuid, cycle_id: Option<Uuid>, k: int)
    requires
        0 <= k <= g.len(),
        weight_total(g.take(k), employee_id, cycle_id) is None,
    ensures
        weight_total(g, employee_id, cycle_id) is None,
    decreases g.len() - k,
{
    if k < g.len() {
        assert(g.take(k + 1).drop_last() =~= g.take(k));
        lemma_weight_total_none_stays(g, employee_id, cycle_id, k + 1);
    } else {
        assert(g.take(k) =~= g);
    }
}

} // verus!
