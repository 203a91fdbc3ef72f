# performance

The performance-management domain of an HR system: appraisal cycles,
appraisals, goals, feedback, rewards and talent-matrix entries, and the write
path that moves cycles, appraisals and goals through their state machines.

## Layout

- `src/` is the library, written and proved with Verus.
  - `values.rs`, `text.rs`, `json.rs`, `common.rs`: decimals, dates,
    instants and UUIDs as plain values; text helpers; reading one JSON value
    into a field; audit metadata and identifier parsing.
  - `appraisal_status.rs`, `cycle_status.rs`, `goal_status.rs`,
    `feedback_relationship.rs`, `reward_type.rs`: the status enums, their
    names and their parsing.
  - `appraisal.rs`, `appraisal_cycle.rs`, `feedback.rs`, `goal.rs`,
    `reward.rs`, `talent_matrix_entry.rs`: the entities, their builders and
    their partial updates.
  - `performance_write_service.rs`: every decision of the write path, each a
    function from the stored values it reads to the row it writes or the
    error it answers.
  - `ledger.rs`: an in-memory store that runs the write path's verbs, the
    store's invariant (a closed cycle holds only finalized appraisals) and the
    laws that every verb keeps.
- `tests/` runs the library on concrete values.
- `app/` is the service around the library: PostgreSQL access through sqlx,
  the HTTP routes, the event sink that logs, and serde/sqlx copies of the
  library's types.
