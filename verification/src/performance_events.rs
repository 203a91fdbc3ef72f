//! What the performance module announces to the rest of the system.

use vstd::prelude::*;
use crate::values::{Decimal, Uuid};

verus! {

/// What the module announces.
#[derive(Debug, Clone, Copy)]
pub enum PerformanceEvent {
    /// An appraisal was individually finalised (its rating is now immutable).
    AppraisalFinalised {
        appraisal_id: Uuid,
        employee_id: Uuid,
        rating: Option<Decimal>,
    },
    /// A cycle closed: every appraisal in it is finalised.
    CycleClosed {
        cycle_id: Uuid,
    },
}

} // verus!
