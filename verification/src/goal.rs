//! An employee's goal, optionally within a cycle.

use vstd::prelude::*;
use vstd::string::*;
use crate::goal_status::GoalStatus;
use crate::common::{AuditMetadata, Entity, InvalidId, parse_id, set_id_from_text};
use crate::json::{json_opt_decimal, json_opt_string, json_opt_uuid, json_string, json_uuid, lemma_patched_all, lemma_patched_none, lemma_patched_step, opt_decimal, opt_decimal_reader, opt_string_reader, opt_text, opt_uuid_reader, patch_view, patched, string_reader, uuid_reader};
use crate::text::text_eq;
use crate::values::{Decimal, Timestamp, Uuid, generate_uuid, is_random_uuid, uuid_parse, uuid_text, uuid_to_text};

verus! {

/// Strongly-typed ID for Goal
#[derive(Debug, Clone, Copy, PartialEq, Eq, Hash, Structural)]
pub struct GoalId(pub Uuid);

impl GoalId {
    /// The identifier holding `id`.
    pub fn new(id: Uuid) -> (r: GoalId)
        ensures
            r.0 == id,
    {
        GoalId(id)
    }

    /// A fresh random identifier.
    pub fn generate() -> (r: GoalId)
        ensures
            is_random_uuid(r.0),
    {
        GoalId(generate_uuid())
    }

    /// The UUID inside.
    pub fn into_inner(self) -> (r: Uuid)
        ensures
            r == self.0,
    {
        self.0
    }

    /// A reference to the UUID inside.
    pub fn as_ref(&self) -> (r: &Uuid)
        ensures
            *r == self.0,
    {
        &self.0
    }

    /// The hyphenated lower-case form.
    pub fn to_string(&self) -> (r: String)
        ensures
            r@ == uuid_text(self.0),
    {
        uuid_to_text(self.0)
    }

    /// Parses an identifier; the hyphenated form of an identifier gives it
    /// back.
    pub fn from_str(s: &str) -> (r: Result<GoalId, InvalidId>)
        ensures
            match uuid_parse(s@) {
                Some(v) => r == Ok::<GoalId, InvalidId>(GoalId(v)),
                None => r matches Err(e) && e.text@ == s@,
            },
            forall|v: u128| s@ == uuid_text(v) ==> r == Ok::<GoalId, InvalidId>(GoalId(v)),
    {
        match parse_id(s) {
            Ok(v) => Ok(GoalId(v)),
            Err(e) => Err(e),
        }
    }
}

impl From<Uuid> for GoalId {
    fn from(id: Uuid) -> (r: GoalId) {
        GoalId(id)
    }
}

impl vstd::std_specs::convert::FromSpecImpl<Uuid> for GoalId {
    open spec fn obeys_from_spec() -> bool {
        true
    }

    open spec fn from_spec(id: Uuid) -> GoalId {
        GoalId(id)
    }
}

impl From<GoalId> for Uuid {
    fn from(id: GoalId) -> (r: Uuid) {
        id.0
    }
}

impl vstd::std_specs::convert::FromSpecImpl<GoalId> for Uuid {
    open spec fn obeys_from_spec() -> bool {
        true
    }

    open spec fn from_spec(id: GoalId) -> Uuid {
        id.0
    }
}

/// An employee's goal, optionally within a cycle.
#[derive(Debug, Clone)]
pub struct Goal {
    pub id: Uuid,
    pub company_id: Uuid,
    pub employee_id: Uuid,
    pub cycle_id: Option<Uuid>,
    pub title: String,
    pub description: Option<String>,
    pub weight: Option<Decimal>,
    pub progress: Option<Decimal>,
    pub parent_goal_id: Option<Uuid>,
    pub status: GoalStatus,
    pub metadata: AuditMetadata,
}

impl Goal {
    /// Create a builder for Goal
    pub fn builder() -> (r: GoalBuilder)
        ensures
            r.spec_company_id() is None,
            r.spec_employee_id() is None,
            r.spec_cycle_id() is None,
            r.spec_title() is None,
            r.spec_description() is None,
            r.spec_weight() is None,
            r.spec_progress() is None,
            r.spec_parent_goal_id() is None,
            r.spec_status() is None,
    {
        GoalBuilder {
            company_id: None,
            employee_id: None,
            cycle_id: None,
            title: None,
            description: None,
            weight: None,
            progress: None,
            parent_goal_id: None,
            status: None,
        }
    }

    /// Create a new Goal with required fields, under a fresh random
    /// identifier.
    pub fn new(company_id: Uuid, employee_id: Uuid, title: String, status: GoalStatus) -> (r: Goal)
        ensures
            is_random_uuid(r.id),
            r.company_id == company_id,
            r.employee_id == employee_id,
            r.cycle_id is None,
            r.title == title,
            r.description is None,
            r.weight is None,
            r.progress is None,
            r.parent_goal_id is None,
            r.status == status,
            r.metadata == AuditMetadata::empty(),
    {
        Goal {
            id: generate_uuid(),
            company_id,
            employee_id,
            cycle_id: None,
            title,
            description: None,
            weight: None,
            progress: None,
            parent_goal_id: None,
            status,
            metadata: AuditMetadata::default(),
        }
    }

    /// Get the entity's unique identifier
    pub fn id(&self) -> (r: &Uuid)
        ensures
            *r == self.id,
    {
        &self.id
    }

    /// Get a strongly-typed ID for this entity
    pub fn typed_id(&self) -> (r: GoalId)
        ensures
            r == GoalId(self.id),
    {
        GoalId(self.id)
    }

    /// Get when this entity was created
    pub fn created_at(&self) -> (r: Option<&Timestamp>)
        ensures
            r == match self.metadata.created_at { Some(t) => Some(&t), None => None },
    {
        self.metadata.created_at.as_ref()
    }

    /// Get when this entity was last updated
    pub fn updated_at(&self) -> (r: Option<&Timestamp>)
        ensures
            r == match self.metadata.updated_at { Some(t) => Some(&t), None => None },
    {
        self.metadata.updated_at.as_ref()
    }

    /// Check if this entity is soft deleted
    pub fn is_deleted(&self) -> (r: bool)
        ensures
            r == self.metadata.deleted_at is Some,
    {
        self.metadata.deleted_at.is_some()
    }

    /// Check if this entity is active (not deleted)
    pub fn is_active(&self) -> (r: bool)
        ensures
            r == self.metadata.deleted_at is None,
    {
        self.metadata.deleted_at.is_none()
    }

    /// Get when this entity was deleted
    pub fn deleted_at(&self) -> (r: Option<&Timestamp>)
        ensures
            r == match self.metadata.deleted_at { Some(t) => Some(&t), None => None },
    {
        self.metadata.deleted_at.as_ref()
    }

    /// Get who created this entity
    pub fn created_by(&self) -> (r: Option<&Uuid>)
        ensures
            r == match self.metadata.created_by { Some(t) => Some(&t), None => None },
    {
        self.metadata.created_by.as_ref()
    }

    /// Get who last updated this entity
    pub fn updated_by(&self) -> (r: Option<&Uuid>)
        ensures
            r == match self.metadata.updated_by { Some(t) => Some(&t), None => None },
    {
        self.metadata.updated_by.as_ref()
    }

    /// Get who deleted this entity
    pub fn deleted_by(&self) -> (r: Option<&Uuid>)
        ensures
            r == match self.metadata.deleted_by { Some(t) => Some(&t), None => None },
    {
        self.metadata.deleted_by.as_ref()
    }

    /// Get the current status
    pub fn status(&self) -> (r: &GoalStatus)
        ensures
            *r == self.status,
    {
        &self.status
    }

    /// Set the cycle_id field (chainable)
    pub fn with_cycle_id(self, value: Uuid) -> (r: Goal)
        ensures
            r == (Goal { cycle_id: Some(value), ..self }),
    {
        let mut s = self;
        s.cycle_id = Some(value);
        s
    }

    /// Set the description field (chainable)
    pub fn with_description(self, value: String) -> (r: Goal)
        ensures
            r == (Goal { description: Some(value), ..self }),
    {
        let mut s = self;
        s.description = Some(value);
        s
    }

    /// Set the weight field (chainable)
    pub fn with_weight(self, value: Decimal) -> (r: Goal)
        ensures
            r == (Goal { weight: Some(value), ..self }),
    {
        let mut s = self;
        s.weight = Some(value);
        s
    }

    /// Set the progress field (chainable)
    pub fn with_progress(self, value: Decimal) -> (r: Goal)
        ensures
            r == (Goal { progress: Some(value), ..self }),
    {
        let mut s = self;
        s.progress = Some(value);
        s
    }

    /// Set the parent_goal_id field (chainable)
    pub fn with_parent_goal_id(self, value: Uuid) -> (r: Goal)
        ensures
            r == (Goal { parent_goal_id: Some(value), ..self }),
    {
        let mut s = self;
        s.parent_goal_id = Some(value);
        s
    }

    /// Apply partial updates from (field name, JSON text of the value) pairs:
    /// an entry whose name is a patchable field and whose value reads as that
    /// field's type overwrites it, in order; other entries are ignored.
    pub fn apply_patch(&mut self, fields: Vec<(String, String)>)
        ensures
            final(self).id == old(self).id,
            final(self).metadata == old(self).metadata,
            final(self).company_id == patched(patch_view(fields@), "company_id"@, uuid_reader(), old(self).company_id),
            final(self).employee_id == patched(patch_view(fields@), "employee_id"@, uuid_reader(), old(self).employee_id),
            final(self).cycle_id == patched(patch_view(fields@), "cycle_id"@, opt_uuid_reader(), old(self).cycle_id),
            final(self).title@ == patched(patch_view(fields@), "title"@, string_reader(), old(self).title@),
            opt_text(final(self).description) == patched(patch_view(fields@), "description"@, opt_string_reader(), opt_text(old(self).description)),
            opt_decimal(final(self).weight) == patched(patch_view(fields@), "weight"@, opt_decimal_reader(), opt_decimal(old(self).weight)),
            opt_decimal(final(self).progress) == patched(patch_view(fields@), "progress"@, opt_decimal_reader(), opt_decimal(old(self).progress)),
            final(self).parent_goal_id == patched(patch_view(fields@), "parent_goal_id"@, opt_uuid_reader(), old(self).parent_goal_id),
            final(self).status == patched(patch_view(fields@), "status"@, GoalStatus::json_reader(), old(self).status),
    {
        let ghost f = fields@;
        let ghost start = *self;
        proof {
            reveal_strlit("company_id");
            reveal_strlit("employee_id");
            reveal_strlit("cycle_id");
            reveal_strlit("title");
            reveal_strlit("description");
            reveal_strlit("weight");
            reveal_strlit("progress");
            reveal_strlit("parent_goal_id");
            reveal_strlit("status");
            lemma_patched_none(f, "company_id"@, uuid_reader(), start.company_id);
            lemma_patched_none(f, "employee_id"@, uuid_reader(), start.employee_id);
            lemma_patched_none(f, "cycle_id"@, opt_uuid_reader(), start.cycle_id);
            lemma_patched_none(f, "title"@, string_reader(), start.title@);
            lemma_patched_none(f, "description"@, opt_string_reader(), opt_text(start.description));
            lemma_patched_none(f, "weight"@, opt_decimal_reader(), opt_decimal(start.weight));
            lemma_patched_none(f, "progress"@, opt_decimal_reader(), opt_decimal(start.progress));
            lemma_patched_none(f, "parent_goal_id"@, opt_uuid_reader(), start.parent_goal_id);
            lemma_patched_none(f, "status"@, GoalStatus::json_reader(), start.status);
        }
        let mut i: usize = 0;
        while i < fields.len()
            invariant
                f == fields@,
                i <= fields.len(),
                self.id == start.id,
                self.metadata == start.metadata,
                self.company_id == patched(patch_view(f.take(i as int)), "company_id"@, uuid_reader(), start.company_id),
                self.employee_id == patched(patch_view(f.take(i as int)), "employee_id"@, uuid_reader(), start.employee_id),
                self.cycle_id == patched(patch_view(f.take(i as int)), "cycle_id"@, opt_uuid_reader(), start.cycle_id),
                self.title@ == patched(patch_view(f.take(i as int)), "title"@, string_reader(), start.title@),
                opt_text(self.description) == patched(patch_view(f.take(i as int)), "description"@, opt_string_reader(), opt_text(start.description)),
                opt_decimal(self.weight) == patched(patch_view(f.take(i as int)), "weight"@, opt_decimal_reader(), opt_decimal(start.weight)),
                opt_decimal(self.progress) == patched(patch_view(f.take(i as int)), "progress"@, opt_decimal_reader(), opt_decimal(start.progress)),
                self.parent_goal_id == patched(patch_view(f.take(i as int)), "parent_goal_id"@, opt_uuid_reader(), start.parent_goal_id),
                self.status == patched(patch_view(f.take(i as int)), "status"@, GoalStatus::json_reader(), start.status),
            decreases fields.len() - i,
        {
            let key = fields[i].0.as_str();
            let value = fields[i].1.as_str();
            proof {
                reveal_strlit("company_id");
                reveal_strlit("employee_id");
                reveal_strlit("cycle_id");
                reveal_strlit("title");
                reveal_strlit("description");
                reveal_strlit("weight");
                reveal_strlit("progress");
                reveal_strlit("parent_goal_id");
                reveal_strlit("status");
                assert("company_id"@.len() != "employee_id"@.len());
                assert("company_id"@.len() != "cycle_id"@.len());
                assert("company_id"@.len() != "title"@.len());
                assert("company_id"@.len() != "description"@.len());
                assert("company_id"@.len() != "weight"@.len());
                assert("company_id"@.len() != "progress"@.len());
                assert("company_id"@.len() != "parent_goal_id"@.len());
                assert("company_id"@.len() != "status"@.len());
                assert("employee_id"@.len() != "cycle_id"@.len());
                assert("employee_id"@.len() != "title"@.len());
                assert("employee_id"@[0] != "description"@[0]);
                assert("employee_id"@.len() != "weight"@.len());
                assert("employee_id"@.len() != "progress"@.len());
                assert("employee_id"@.len() != "parent_goal_id"@.len());
                assert("employee_id"@.len() != "status"@.len());
                assert("cycle_id"@.len() != "title"@.len());
                assert("cycle_id"@.len() != "description"@.len());
                assert("cycle_id"@.len() != "weight"@.len());
                assert("cycle_id"@[0] != "progress"@[0]);
                assert("cycle_id"@.len() != "parent_goal_id"@.len());
                assert("cycle_id"@.len() != "status"@.len());
                assert("title"@.len() != "description"@.len());
                assert("title"@.len() != "weight"@.len());
                assert("title"@.len() != "progress"@.len());
                assert("title"@.len() != "parent_goal_id"@.len());
                assert("title"@.len() != "status"@.len());
                assert("description"@.len() != "weight"@.len());
                assert("description"@.len() != "progress"@.len());
                assert("description"@.len() != "parent_goal_id"@.len());
                assert("description"@.len() != "status"@.len());
                assert("weight"@.len() != "progress"@.len());
                assert("weight"@.len() != "parent_goal_id"@.len());
                assert("weight"@[0] != "status"@[0]);
                assert("progress"@.len() != "parent_goal_id"@.len());
                assert("progress"@.len() != "status"@.len());
                assert("parent_goal_id"@.len() != "status"@.len());
                lemma_patched_step(f, i as int, "company_id"@, uuid_reader(), start.company_id);
                lemma_patched_step(f, i as int, "employee_id"@, uuid_reader(), start.employee_id);
                lemma_patched_step(f, i as int, "cycle_id"@, opt_uuid_reader(), start.cycle_id);
                lemma_patched_step(f, i as int, "title"@, string_reader(), start.title@);
                lemma_patched_step(f, i as int, "description"@, opt_string_reader(), opt_text(start.description));
                lemma_patched_step(f, i as int, "weight"@, opt_decimal_reader(), opt_decimal(start.weight));
                lemma_patched_step(f, i as int, "progress"@, opt_decimal_reader(), opt_decimal(start.progress));
                lemma_patched_step(f, i as int, "parent_goal_id"@, opt_uuid_reader(), start.parent_goal_id);
                lemma_patched_step(f, i as int, "status"@, GoalStatus::json_reader(), start.status);
            }
            if text_eq(key, "company_id") {
                match json_uuid(value) {
                    Some(v) => { self.company_id = v; },
                    None => {},
                }
            } else if text_eq(key, "employee_id") {
                match json_uuid(value) {
                    Some(v) => { self.employee_id = v; },
                    None => {},
                }
            } else if text_eq(key, "cycle_id") {
                match json_opt_uuid(value) {
                    Some(v) => { self.cycle_id = v; },
                    None => {},
                }
            } else if text_eq(key, "title") {
                match json_string(value) {
                    Some(v) => { self.title = v; },
                    None => {},
                }
            } else if text_eq(key, "description") {
                match json_opt_string(value) {
                    Some(v) => { self.description = v; },
                    None => {},
                }
            } else if text_eq(key, "weight") {
                match json_opt_decimal(value) {
                    Some(v) => { self.weight = v; },
                    None => {},
                }
            } else if text_eq(key, "progress") {
                match json_opt_decimal(value) {
                    Some(v) => { self.progress = v; },
                    None => {},
                }
            } else if text_eq(key, "parent_goal_id") {
                match json_opt_uuid(value) {
                    Some(v) => { self.parent_goal_id = v; },
                    None => {},
                }
            } else if text_eq(key, "status") {
                match GoalStatus::from_json(value) {
                    Some(v) => { self.status = v; },
                    None => {},
                }
            }
            i = i + 1;
        }
        proof {
            lemma_patched_all::<u128>(f);
        }
    }

    /// The identifier as text (hyphenated lower case).
    pub fn entity_id_text(&self) -> (r: String)
        ensures
            r@ == uuid_text(self.id),
    {
        uuid_to_text(self.id)
    }

    /// Sets the identifier from text; a text that is not a UUID leaves it.
    pub fn set_entity_id(&mut self, id: &str)
        ensures
            *final(self) == (Goal {
                id: match uuid_parse(id@) { Some(v) => v, None => old(self).id },
                ..*old(self)
            }),
    {
        set_id_from_text(&mut self.id, id);
    }

    /// Records when this entity was created.
    pub fn set_created_at(&mut self, ts: Timestamp)
        ensures
            *final(self) == (Goal { metadata: AuditMetadata { created_at: Some(ts), ..old(self).metadata }, ..*old(self) }),
    {
        self.metadata.created_at = Some(ts);
    }

    /// Records when this entity was last updated.
    pub fn set_updated_at(&mut self, ts: Timestamp)
        ensures
            *final(self) == (Goal { metadata: AuditMetadata { updated_at: Some(ts), ..old(self).metadata }, ..*old(self) }),
    {
        self.metadata.updated_at = Some(ts);
    }

    /// Records (or clears) when this entity was soft deleted.
    pub fn set_deleted_at(&mut self, ts: Option<Timestamp>)
        ensures
            *final(self) == (Goal { metadata: AuditMetadata { deleted_at: ts, ..old(self).metadata }, ..*old(self) }),
    {
        self.metadata.deleted_at = ts;
    }

    /// The store's type hints for filtering and sorting: (column, type).
    pub fn column_types() -> (r: Vec<(String, String)>)
        ensures
            r@.map_values(|p: (String, String)| (p.0@, p.1@)) == seq![
                ("id"@, "uuid"@),
                ("company_id"@, "uuid"@),
                ("employee_id"@, "uuid"@),
                ("cycle_id"@, "uuid"@),
                ("parent_goal_id"@, "uuid"@),
                ("status"@, "goal_status"@),
            ],
    {
        let mut m: Vec<(String, String)> = Vec::new();
        m.push((String::from_str("id"), String::from_str("uuid")));
        m.push((String::from_str("company_id"), String::from_str("uuid")));
        m.push((String::from_str("employee_id"), String::from_str("uuid")));
        m.push((String::from_str("cycle_id"), String::from_str("uuid")));
        m.push((String::from_str("parent_goal_id"), String::from_str("uuid")));
        m.push((String::from_str("status"), String::from_str("goal_status")));
        proof {
            assert(m@.map_values(|p: (String, String)| (p.0@, p.1@)) =~= seq![
                ("id"@, "uuid"@),
                ("company_id"@, "uuid"@),
                ("employee_id"@, "uuid"@),
                ("cycle_id"@, "uuid"@),
                ("parent_goal_id"@, "uuid"@),
                ("status"@, "goal_status"@),
            ]);
        }
        m
    }

    /// The text columns searched by the free-text filter.
    pub fn search_fields() -> (r: &'static [&'static str])
        ensures
            r@.len() == 1,
            r@[0]@ == "title"@,
    {
        &["title"]
    }

    /// The column that scopes rows to a company.
    pub fn company_field() -> (r: Option<&'static str>)
        ensures
            r matches Some(s) && s@ == "company_id"@,
    {
        Some("company_id")
    }
}

impl Entity for Goal {
    type Id = Uuid;

    fn entity_id(&self) -> (r: &Uuid)
        ensures
            *r == self.id,
    {
        &self.id
    }

    fn entity_type() -> (r: &'static str)
        ensures
            r@ == "Goal"@,
    {
        "Goal"
    }
}

/// Builder for Goal entity
///
/// Provides a fluent API for constructing Goal instances.
/// System fields (id, metadata, timestamps) are auto-initialized.
#[derive(Debug, Clone)]
pub struct GoalBuilder {
    company_id: Option<Uuid>,
    employee_id: Option<Uuid>,
    cycle_id: Option<Uuid>,
    title: Option<String>,
    description: Option<String>,
    weight: Option<Decimal>,
    progress: Option<Decimal>,
    parent_goal_id: Option<Uuid>,
    status: Option<GoalStatus>,
}

impl GoalBuilder {
    /// The `company_id` set so far, if any.
    pub closed spec fn spec_company_id(self) -> Option<Uuid> { self.company_id }
    /// The `employee_id` set so far, if any.
    pub closed spec fn spec_employee_id(self) -> Option<Uuid> { self.employee_id }
    /// The `cycle_id` set so far, if any.
    pub closed spec fn spec_cycle_id(self) -> Option<Uuid> { self.cycle_id }
    /// The `title` set so far, if any.
    pub closed spec fn spec_title(self) -> Option<String> { self.title }
    /// The `description` set so far, if any.
    pub closed spec fn spec_description(self) -> Option<String> { self.description }
    /// The `weight` set so far, if any.
    pub closed spec fn spec_weight(self) -> Option<Decimal> { self.weight }
    /// The `progress` set so far, if any.
    pub closed spec fn spec_progress(self) -> Option<Decimal> { self.progress }
    /// The `parent_goal_id` set so far, if any.
    pub closed spec fn spec_parent_goal_id(self) -> Option<Uuid> { self.parent_goal_id }
    /// The `status` set so far, if any.
    pub closed spec fn spec_status(self) -> Option<GoalStatus> { self.status }

    /// Set the company_id field (required)
    pub fn company_id(self, value: Uuid) -> (r: GoalBuilder)
        ensures
            r.spec_company_id() == Some(value),
            r.spec_employee_id() == self.spec_employee_id(),
            r.spec_cycle_id() == self.spec_cycle_id(),
            r.spec_title() == self.spec_title(),
            r.spec_description() == self.spec_description(),
            r.spec_weight() == self.spec_weight(),
            r.spec_progress() == self.spec_progress(),
            r.spec_parent_goal_id() == self.spec_parent_goal_id(),
            r.spec_status() == self.spec_status(),
    {
        let mut b = self;
        b.company_id = Some(value);
        b
    }

    /// Set the employee_id field (required)
    pub fn employee_id(self, value: Uuid) -> (r: GoalBuilder)
        ensures
            r.spec_employee_id() == Some(value),
            r.spec_company_id() == self.spec_company_id(),
            r.spec_cycle_id() == self.spec_cycle_id(),
            r.spec_title() == self.spec_title(),
            r.spec_description() == self.spec_description(),
            r.spec_weight() == self.spec_weight(),
            r.spec_progress() == self.spec_progress(),
            r.spec_parent_goal_id() == self.spec_parent_goal_id(),
            r.spec_status() == self.spec_status(),
    {
        let mut b = self;
        b.employee_id = Some(value);
        b
    }

    /// Set the cycle_id field (optional)
    pub fn cycle_id(self, value: Uuid) -> (r: GoalBuilder)
        ensures
            r.spec_cycle_id() == Some(value),
            r.spec_company_id() == self.spec_company_id(),
            r.spec_employee_id() == self.spec_employee_id(),
            r.spec_title() == self.spec_title(),
            r.spec_description() == self.spec_description(),
            r.spec_weight() == self.spec_weight(),
            r.spec_progress() == self.spec_progress(),
            r.spec_parent_goal_id() == self.spec_parent_goal_id(),
            r.spec_status() == self.spec_status(),
    {
        let mut b = self;
        b.cycle_id = Some(value);
        b
    }

    /// Set the title field (required)
    pub fn title(self, value: String) -> (r: GoalBuilder)
        ensures
            r.spec_title() == Some(value),
            r.spec_company_id() == self.spec_company_id(),
            r.spec_employee_id() == self.spec_employee_id(),
            r.spec_cycle_id() == self.spec_cycle_id(),
            r.spec_description() == self.spec_description(),
            r.spec_weight() == self.spec_weight(),
            r.spec_progress() == self.spec_progress(),
            r.spec_parent_goal_id() == self.spec_parent_goal_id(),
            r.spec_status() == self.spec_status(),
    {
        let mut b = self;
        b.title = Some(value);
        b
    }

    /// Set the description field (optional)
    pub fn description(self, value: String) -> (r: GoalBuilder)
        ensures
            r.spec_description() == Some(value),
            r.spec_company_id() == self.spec_company_id(),
            r.spec_employee_id() == self.spec_employee_id(),
            r.spec_cycle_id() == self.spec_cycle_id(),
            r.spec_title() == self.spec_title(),
            r.spec_weight() == self.spec_weight(),
            r.spec_progress() == self.spec_progress(),
            r.spec_parent_goal_id() == self.spec_parent_goal_id(),
            r.spec_status() == self.spec_status(),
    {
        let mut b = self;
        b.description = Some(value);
        b
    }

    /// Set the weight field (optional)
    pub fn weight(self, value: Decimal) -> (r: GoalBuilder)
        ensures
            r.spec_weight() == Some(value),
            r.spec_company_id() == self.spec_company_id(),
            r.spec_employee_id() == self.spec_employee_id(),
            r.spec_cycle_id() == self.spec_cycle_id(),
            r.spec_title() == self.spec_title(),
            r.spec_description() == self.spec_description(),
            r.spec_progress() == self.spec_progress(),
            r.spec_parent_goal_id() == self.spec_parent_goal_id(),
            r.spec_status() == self.spec_status(),
    {
        let mut b = self;
        b.weight = Some(value);
        b
    }

    /// Set the progress field (optional)
    pub fn progress(self, value: Decimal) -> (r: GoalBuilder)
        ensures
            r.spec_progress() == Some(value),
            r.spec_company_id() == self.spec_company_id(),
            r.spec_employee_id() == self.spec_employee_id(),
            r.spec_cycle_id() == self.spec_cycle_id(),
            r.spec_title() == self.spec_title(),
            r.spec_description() == self.spec_description(),
            r.spec_weight() == self.spec_weight(),
            r.spec_parent_goal_id() == self.spec_parent_goal_id(),
            r.spec_status() == self.spec_status(),
    {
        let mut b = self;
        b.progress = Some(value);
        b
    }

    /// Set the parent_goal_id field (optional)
    pub fn parent_goal_id(self, value: Uuid) -> (r: GoalBuilder)
        ensures
            r.spec_parent_goal_id() == Some(value),
            r.spec_company_id() == self.spec_company_id(),
            r.spec_employee_id() == self.spec_employee_id(),
            r.spec_cycle_id() == self.spec_cycle_id(),
            r.spec_title() == self.spec_title(),
            r.spec_description() == self.spec_description(),
            r.spec_weight() == self.spec_weight(),
            r.spec_progress() == self.spec_progress(),
            r.spec_status() == self.spec_status(),
    {
        let mut b = self;
        b.parent_goal_id = Some(value);
        b
    }

    /// Set the status field (default: `GoalStatus::default()`)
    pub fn status(self, value: GoalStatus) -> (r: GoalBuilder)
        ensures
            r.spec_status() == Some(value),
            r.spec_company_id() == self.spec_company_id(),
            r.spec_employee_id() == self.spec_employee_id(),
            r.spec_cycle_id() == self.spec_cycle_id(),
            r.spec_title() == self.spec_title(),
            r.spec_description() == self.spec_description(),
            r.spec_weight() == self.spec_weight(),
            r.spec_progress() == self.spec_progress(),
            r.spec_parent_goal_id() == self.spec_parent_goal_id(),
    {
        let mut b = self;
        b.status = Some(value);
        b
    }

    /// The text of the first required field that is missing, if any.
    pub open spec fn missing(self) -> Option<Seq<char>> {
        if self.spec_company_id() is None {
            Some("company_id is required"@)
        } else if self.spec_employee_id() is None {
            Some("employee_id is required"@)
        } else if self.spec_title() is None {
            Some("title is required"@)
        } else {
            None
        }
    }

    /// The entity this builder makes under `id`.
    pub open spec fn built(self, id: Uuid) -> Goal {
        Goal {
            id,
            company_id: self.spec_company_id().unwrap(),
            employee_id: self.spec_employee_id().unwrap(),
            cycle_id: self.spec_cycle_id(),
            title: self.spec_title().unwrap(),
            description: self.spec_description(),
            weight: self.spec_weight(),
            progress: self.spec_progress(),
            parent_goal_id: self.spec_parent_goal_id(),
            status: match self.spec_status() { Some(v) => v, None => GoalStatus::Draft },
            metadata: AuditMetadata::empty(),
        }
    }

    /// Build the Goal entity under a fresh random identifier.
    ///
    /// Returns Err if any required field without a default is missing.
    pub fn build(self) -> (r: Result<Goal, String>)
        ensures
            match self.missing() {
                Some(msg) => r matches Err(m) && m@ == msg,
                None => r matches Ok(x) && x == self.built(x.id) && is_random_uuid(x.id),
            },
    {
        let company_id = match self.company_id {
            Some(v) => v,
            None => return Err(String::from_str("company_id is required")),
        };
        let employee_id = match self.employee_id {
            Some(v) => v,
            None => return Err(String::from_str("employee_id is required")),
        };
        let title = match self.title {
            Some(v) => v,
            None => return Err(String::from_str("title is required")),
        };
        Ok(Goal {
            id: generate_uuid(),
            company_id,
            employee_id,
            cycle_id: self.cycle_id,
            title,
            description: self.description,
            weight: self.weight,
            progress: self.progress,
            parent_goal_id: self.parent_goal_id,
            status: match self.status {
                Some(v) => v,
                None => GoalStatus::default(),
            },
            metadata: AuditMetadata::default(),
        })
    }
}

impl Default for GoalBuilder {
    fn default() -> (r: GoalBuilder)
        ensures
            r.spec_company_id() is None,
            r.spec_employee_id() is None,
            r.spec_cycle_id() is None,
            r.spec_title() is None,
            r.spec_description() is None,
            r.spec_weight() is None,
            r.spec_progress() is None,
            r.spec_parent_goal_id() is None,
            r.spec_status() is None,
    {
        GoalBuilder {
            company_id: None,
            employee_id: None,
            cycle_id: None,
            title: None,
            description: None,
            weight: None,
            progress: None,
            parent_goal_id: None,
            status: None,
        }
    }
}

} // verus!
