//! The performance-management domain: appraisal cycles, appraisals, goals,
//! feedback, rewards and talent-matrix entries, with the write path's state
//! machine and its rules stated and proved.

pub mod text;
pub mod values;
pub mod json;
pub mod common;
pub mod appraisal_status;
pub mod cycle_status;
pub mod feedback_relationship;
pub mod goal_status;
pub mod reward_type;
pub mod performance_events;
pub mod performance_write_service;
pub mod ledger;
pub mod appraisal;
pub mod appraisal_cycle;
pub mod feedback;
pub mod goal;
pub mod reward;
pub mod talent_matrix_entry;
