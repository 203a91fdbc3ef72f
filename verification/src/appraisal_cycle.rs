//! An appraisal cycle: a named period in which employees are appraised.

use vstd::prelude::*;
use vstd::string::*;
use crate::cycle_status::CycleStatus;
use crate::common::{AuditMetadata, Entity, InvalidId, parse_id, set_id_from_text};
use crate::json::{date_reader, json_date, json_opt_string, json_string, lemma_patched_all, lemma_patched_none, lemma_patched_step, opt_string_reader, opt_text, patch_view, patched, string_reader};
use crate::text::text_eq;
use crate::values::{Date, Timestamp, Uuid, generate_uuid, is_random_uuid, uuid_parse, uuid_text, uuid_to_text};

verus! {

/// Strongly-typed ID for AppraisalCycle
#[derive(Debug, Clone, Copy, PartialEq, Eq, Hash, Structural)]
pub struct AppraisalCycleId(pub Uuid);

impl AppraisalCycleId {
    /// The identifier holding `id`.
    pub fn new(id: Uuid) -> (r: AppraisalCycleId)
        ensures
            r.0 == id,
    {
        AppraisalCycleId(id)
    }

    /// A fresh random identifier.
    pub fn generate() -> (r: AppraisalCycleId)
        ensures
            is_random_uuid(r.0),
    {
        AppraisalCycleId(generate_uuid())
    }

    /// The UUID inside.
    pub fn into_inner(self) -> (r: Uuid)
        ensures
            r == self.0,
    {
        self.0
    }

    /// A reference to the UUID inside.
    pub fn as_ref(&self) -> (r: &Uuid)
        ensures
            *r == self.0,
    {
        &self.0
    }

    /// The hyphenated lower-case form.
    pub fn to_string(&self) -> (r: String)
        ensures
            r@ == uuid_text(self.0),
    {
        uuid_to_text(self.0)
    }

    /// Parses an identifier; the hyphenated form of an identifier gives it
    /// back.
    pub fn from_str(s: &str) -> (r: Result<AppraisalCycleId, InvalidId>)
        ensures
            match uuid_parse(s@) {
                Some(v) => r == Ok::<AppraisalCycleId, InvalidId>(AppraisalCycleId(v)),
                None => r matches Err(e) && e.text@ == s@,
            },
            forall|v: u128| s@ == uuid_text(v) ==> r == Ok::<AppraisalCycleId, InvalidId>(AppraisalCycleId(v)),
    {
        match parse_id(s) {
            Ok(v) => Ok(AppraisalCycleId(v)),
            Err(e) => Err(e),
        }
    }
}

impl From<Uuid> for AppraisalCycleId {
    fn from(id: Uuid) -> (r: AppraisalCycleId) {
        AppraisalCycleId(id)
    }
}

impl vstd::std_specs::convert::FromSpecImpl<Uuid> for AppraisalCycleId {
    open spec fn obeys_from_spec() -> bool {
        true
    }

    open spec fn from_spec(id: Uuid) -> AppraisalCycleId {
        AppraisalCycleId(id)
    }
}

impl From<AppraisalCycleId> for Uuid {
    fn from(id: AppraisalCycleId) -> (r: Uuid) {
        id.0
    }
}

impl vstd::std_specs::convert::FromSpecImpl<AppraisalCycleId> for Uuid {
    open spec fn obeys_from_spec() -> bool {
        true
    }

    open spec fn from_spec(id: AppraisalCycleId) -> Uuid {
        id.0
    }
}

/// An appraisal cycle: a named period in which employees are appraised.
#[derive(Debug, Clone)]
pub struct AppraisalCycle {
    pub id: Uuid,
    pub name: String,
    pub cycle_type: Option<String>,
    pub period_start: Date,
    pub period_end: Date,
    pub status: CycleStatus,
    pub metadata: AuditMetadata,
}

impl AppraisalCycle {
    /// Create a builder for AppraisalCycle
    pub fn builder() -> (r: AppraisalCycleBuilder)
        ensures
            r.spec_name() is None,
            r.spec_cycle_type() is None,
            r.spec_period_start() is None,
            r.spec_period_end() is None,
            r.spec_status() is None,
    {
        AppraisalCycleBuilder {
            name: None,
            cycle_type: None,
            period_start: None,
            period_end: None,
            status: None,
        }
    }

    /// Create a new AppraisalCycle with required fields, under a fresh random
    /// identifier.
    pub fn new(name: String, period_start: Date, period_end: Date, status: CycleStatus) -> (r: AppraisalCycle)
        ensures
            is_random_uuid(r.id),
            r.name == name,
            r.cycle_type is None,
            r.period_start == period_start,
            r.period_end == period_end,
            r.status == status,
            r.metadata == AuditMetadata::empty(),
    {
        AppraisalCycle {
            id: generate_uuid(),
            name,
            cycle_type: None,
            period_start,
            period_end,
            status,
            metadata: AuditMetadata::default(),
        }
    }

    /// Get the entity's unique identifier
    pub fn id(&self) -> (r: &Uuid)
        ensures
            *r == self.id,
    {
        &self.id
    }

    /// Get a strongly-typed ID for this entity
    pub fn typed_id(&self) -> (r: AppraisalCycleId)
        ensures
            r == AppraisalCycleId(self.id),
    {
        AppraisalCycleId(self.id)
    }

    /// Get when this entity was created
    pub fn created_at(&self) -> (r: Option<&Timestamp>)
        ensures
            r == match self.metadata.created_at { Some(t) => Some(&t), None => None },
    {
        self.metadata.created_at.as_ref()
    }

    /// Get when this entity was last updated
    pub fn updated_at(&self) -> (r: Option<&Timestamp>)
        ensures
            r == match self.metadata.updated_at { Some(t) => Some(&t), None => None },
    {
        self.metadata.updated_at.as_ref()
    }

    /// Check if this entity is soft deleted
    pub fn is_deleted(&self) -> (r: bool)
        ensures
            r == self.metadata.deleted_at is Some,
    {
        self.metadata.deleted_at.is_some()
    }

    /// Check if this entity is active (not deleted)
    pub fn is_active(&self) -> (r: bool)
        ensures
            r == self.metadata.deleted_at is None,
    {
        self.metadata.deleted_at.is_none()
    }

    /// Get when this entity was deleted
    pub fn deleted_at(&self) -> (r: Option<&Timestamp>)
        ensures
            r == match self.metadata.deleted_at { Some(t) => Some(&t), None => None },
    {
        self.metadata.deleted_at.as_ref()
    }

    /// Get who created this entity
    pub fn created_by(&self) -> (r: Option<&Uuid>)
        ensures
            r == match self.metadata.created_by { Some(t) => Some(&t), None => None },
    {
        self.metadata.created_by.as_ref()
    }

    /// Get who last updated this entity
    pub fn updated_by(&self) -> (r: Option<&Uuid>)
        ensures
            r == match self.metadata.updated_by { Some(t) => Some(&t), None => None },
    {
        self.metadata.updated_by.as_ref()
    }

    /// Get who deleted this entity
    pub fn deleted_by(&self) -> (r: Option<&Uuid>)
        ensures
            r == match self.metadata.deleted_by { Some(t) => Some(&t), None => None },
    {
        self.metadata.deleted_by.as_ref()
    }

    /// Get the current status
    pub fn status(&self) -> (r: &CycleStatus)
        ensures
            *r == self.status,
    {
        &self.status
    }

    /// Set the cycle_type field (chainable)
    pub fn with_cycle_type(self, value: String) -> (r: AppraisalCycle)
        ensures
            r == (AppraisalCycle { cycle_type: Some(value), ..self }),
    {
        let mut s = self;
        s.cycle_type = Some(value);
        s
    }

    /// Apply partial updates from (field name, JSON text of the value) pairs:
    /// an entry whose name is a patchable field and whose value reads as that
    /// field's type overwrites it, in order; other entries are ignored.
    pub fn apply_patch(&mut self, fields: Vec<(String, String)>)
        ensures
            final(self).id == old(self).id,
            final(self).metadata == old(self).metadata,
            final(self).name@ == patched(patch_view(fields@), "name"@, string_reader(), old(self).name@),
            opt_text(final(self).cycle_type) == patched(patch_view(fields@), "cycle_type"@, opt_string_reader(), opt_text(old(self).cycle_type)),
            final(self).period_start == patched(patch_view(fields@), "period_start"@, date_reader(), old(self).period_start),
            final(self).period_end == patched(patch_view(fields@), "period_end"@, date_reader(), old(self).period_end),
            final(self).status == patched(patch_view(fields@), "status"@, CycleStatus::json_reader(), old(self).status),
    {
        let ghost f = fields@;
        let ghost start = *self;
        proof {
            reveal_strlit("name");
            reveal_strlit("cycle_type");
            reveal_strlit("period_start");
            reveal_strlit("period_end");
            reveal_strlit("status");
            lemma_patched_none(f, "name"@, string_reader(), start.name@);
            lemma_patched_none(f, "cycle_type"@, opt_string_reader(), opt_text(start.cycle_type));
            lemma_patched_none(f, "period_start"@, date_reader(), start.period_start);
            lemma_patched_none(f, "period_end"@, date_reader(), start.period_end);
            lemma_patched_none(f, "status"@, CycleStatus::json_reader(), start.status);
        }
        let mut i: usize = 0;
        while i < fields.len()
            invariant
                f == fields@,
                i <= fields.len(),
                self.id == start.id,
                self.metadata == start.metadata,
                self.name@ == patched(patch_view(f.take(i as int)), "name"@, string_reader(), start.name@),
                opt_text(self.cycle_type) == patched(patch_view(f.take(i as int)), "cycle_type"@, opt_string_reader(), opt_text(start.cycle_type)),
                self.period_start == patched(patch_view(f.take(i as int)), "period_start"@, date_reader(), start.period_start),
                self.period_end == patched(patch_view(f.take(i as int)), "period_end"@, date_reader(), start.period_end),
                self.status == patched(patch_view(f.take(i as int)), "status"@, CycleStatus::json_reader(), start.status),
            decreases fields.len() - i,
        {
            let key = fields[i].0.as_str();
            let value = fields[i].1.as_str();
            proof {
                reveal_strlit("name");
                reveal_strlit("cycle_type");
                reveal_strlit("period_start");
                reveal_strlit("period_end");
                reveal_strlit("status");
                assert("name"@.len() != "cycle_type"@.len());
                assert("name"@.len() != "period_start"@.len());
                assert("name"@.len() != "period_end"@.len());
                assert("name"@.len() != "status"@.len());
                assert("cycle_type"@.len() != "period_start"@.len());
                assert("cycle_type"@[0] != "period_end"@[0]);
                assert("cycle_type"@.len() != "status"@.len());
                assert("period_start"@.len() != "period_end"@.len());
                assert("period_start"@.len() != "status"@.len());
                assert("period_end"@.len() != "status"@.len());
                lemma_patched_step(f, i as int, "name"@, string_reader(), start.name@);
                lemma_patched_step(f, i as int, "cycle_type"@, opt_string_reader(), opt_text(start.cycle_type));
                lemma_patched_step(f, i as int, "period_start"@, date_reader(), start.period_start);
                lemma_patched_step(f, i as int, "period_end"@, date_reader(), start.period_end);
                lemma_patched_step(f, i as int, "status"@, CycleStatus::json_reader(), start.status);
            }
            if text_eq(key, "name") {
                match json_string(value) {
                    Some(v) => { self.name = v; },
                    None => {},
                }
            } else if text_eq(key, "cycle_type") {
                match json_opt_string(value) {
                    Some(v) => { self.cycle_type = v; },
                    None => {},
                }
            } else if text_eq(key, "period_start") {
                match json_date(value) {
                    Some(v) => { self.period_start = v; },
                    None => {},
                }
            } else if text_eq(key, "period_end") {
                match json_date(value) {
                    Some(v) => { self.period_end = v; },
                    None => {},
                }
            } else if text_eq(key, "status") {
                match CycleStatus::from_json(value) {
                    Some(v) => { self.status = v; },
                    None => {},
                }
            }
            i = i + 1;
        }
        proof {
            lemma_patched_all::<u128>(f);
        }
    }

    /// The identifier as text (hyphenated lower case).
    pub fn entity_id_text(&self) -> (r: String)
        ensures
            r@ == uuid_text(self.id),
    {
        uuid_to_text(self.id)
    }

    /// Sets the identifier from text; a text that is not a UUID leaves it.
    pub fn set_entity_id(&mut self, id: &str)
        ensures
            *final(self) == (AppraisalCycle {
                id: match uuid_parse(id@) { Some(v) => v, None => old(self).id },
                ..*old(self)
            }),
    {
        set_id_from_text(&mut self.id, id);
    }

    /// Records when this entity was created.
    pub fn set_created_at(&mut self, ts: Timestamp)
        ensures
            *final(self) == (AppraisalCycle { metadata: AuditMetadata { created_at: Some(ts), ..old(self).metadata }, ..*old(self) }),
    {
        self.metadata.created_at = Some(ts);
    }

    /// Records when this entity was last updated.
    pub fn set_updated_at(&mut self, ts: Timestamp)
        ensures
            *final(self) == (AppraisalCycle { metadata: AuditMetadata { updated_at: Some(ts), ..old(self).metadata }, ..*old(self) }),
    {
        self.metadata.updated_at = Some(ts);
    }

    /// Records (or clears) when this entity was soft deleted.
    pub fn set_deleted_at(&mut self, ts: Option<Timestamp>)
        ensures
            *final(self) == (AppraisalCycle { metadata: AuditMetadata { deleted_at: ts, ..old(self).metadata }, ..*old(self) }),
    {
        self.metadata.deleted_at = ts;
    }

    /// The store's type hints for filtering and sorting: (column, type).
    pub fn column_types() -> (r: Vec<(String, String)>)
        ensures
            r@.map_values(|p: (String, String)| (p.0@, p.1@)) == seq![
                ("id"@, "uuid"@),
                ("status"@, "cycle_status"@),
            ],
    {
        let mut m: Vec<(String, String)> = Vec::new();
        m.push((String::from_str("id"), String::from_str("uuid")));
        m.push((String::from_str("status"), String::from_str("cycle_status")));
        proof {
            assert(m@.map_values(|p: (String, String)| (p.0@, p.1@)) =~= seq![
                ("id"@, "uuid"@),
                ("status"@, "cycle_status"@),
            ]);
        }
        m
    }

    /// The text columns searched by the free-text filter.
    pub fn search_fields() -> (r: &'static [&'static str])
        ensures
            r@.len() == 1,
            r@[0]@ == "name"@,
    {
        &["name"]
    }
}

impl Entity for AppraisalCycle {
    type Id = Uuid;

    fn entity_id(&self) -> (r: &Uuid)
        ensures
            *r == self.id,
    {
        &self.id
    }

    fn entity_type() -> (r: &'static str)
        ensures
            r@ == "AppraisalCycle"@,
    {
        "AppraisalCycle"
    }
}

/// Builder for AppraisalCycle entity
///
/// Provides a fluent API for constructing AppraisalCycle instances.
/// System fields (id, metadata, timestamps) are auto-initialized.
#[derive(Debug, Clone)]
pub struct AppraisalCycleBuilder {
    name: Option<String>,
    cycle_type: Option<String>,
    period_start: Option<Date>,
    period_end: Option<Date>,
    status: Option<CycleStatus>,
}

impl AppraisalCycleBuilder {
    /// The `name` set so far, if any.
    pub closed spec fn spec_name(self) -> Option<String> { self.name }
    /// The `cycle_type` set so far, if any.
    pub closed spec fn spec_cycle_type(self) -> Option<String> { self.cycle_type }
    /// The `period_start` set so far, if any.
    pub closed spec fn spec_period_start(self) -> Option<Date> { self.period_start }
    /// The `period_end` set so far, if any.
    pub closed spec fn spec_period_end(self) -> Option<Date> { self.period_end }
    /// The `status` set so far, if any.
    pub closed spec fn spec_status(self) -> Option<CycleStatus> { self.status }

    /// Set the name field (required)
    pub fn name(self, value: String) -> (r: AppraisalCycleBuilder)
        ensures
            r.spec_name() == Some(value),
            r.spec_cycle_type() == self.spec_cycle_type(),
            r.spec_period_start() == self.spec_period_start(),
            r.spec_period_end() == self.spec_period_end(),
            r.spec_status() == self.spec_status(),
    {
        let mut b = self;
        b.name = Some(value);
        b
    }

    /// Set the cycle_type field (optional)
    pub fn cycle_type(self, value: String) -> (r: AppraisalCycleBuilder)
        ensures
            r.spec_cycle_type() == Some(value),
            r.spec_name() == self.spec_name(),
            r.spec_period_start() == self.spec_period_start(),
            r.spec_period_end() == self.spec_period_end(),
            r.spec_status() == self.spec_status(),
    {
        let mut b = self;
        b.cycle_type = Some(value);
        b
    }

    /// Set the period_start field (required)
    pub fn period_start(self, value: Date) -> (r: AppraisalCycleBuilder)
        ensures
            r.spec_period_start() == Some(value),
            r.spec_name() == self.spec_name(),
            r.spec_cycle_type() == self.spec_cycle_type(),
            r.spec_period_end() == self.spec_period_end(),
            r.spec_status() == self.spec_status(),
    {
        let mut b = self;
        b.period_start = Some(value);
        b
    }

    /// Set the period_end field (required)
    pub fn period_end(self, value: Date) -> (r: AppraisalCycleBuilder)
        ensures
            r.spec_period_end() == Some(value),
            r.spec_name() == self.spec_name(),
            r.spec_cycle_type() == self.spec_cycle_type(),
            r.spec_period_start() == self.spec_period_start(),
            r.spec_status() == self.spec_status(),
    {
        let mut b = self;
        b.period_end = Some(value);
        b
    }

    /// Set the status field (default: `CycleStatus::default()`)
    pub fn status(self, value: CycleStatus) -> (r: AppraisalCycleBuilder)
        ensures
            r.spec_status() == Some(value),
            r.spec_name() == self.spec_name(),
            r.spec_cycle_type() == self.spec_cycle_type(),
            r.spec_period_start() == self.spec_period_start(),
            r.spec_period_end() == self.spec_period_end(),
    {
        let mut b = self;
        b.status = Some(value);
        b
    }

    /// The text of the first required field that is missing, if any.
    pub open spec fn missing(self) -> Option<Seq<char>> {
        if self.spec_name() is None {
            Some("name is required"@)
        } else if self.spec_period_start() is None {
            Some("period_start is required"@)
        } else if self.spec_period_end() is None {
            Some("period_end is required"@)
        } else {
            None
        }
    }

    /// The entity this builder makes under `id`.
    pub open spec fn built(self, id: Uuid) -> AppraisalCycle {
        AppraisalCycle {
            id,
            name: self.spec_name().unwrap(),
            cycle_type: self.spec_cycle_type(),
            period_start: self.spec_period_start().unwrap(),
            period_end: self.spec_period_end().unwrap(),
            status: match self.spec_status() { Some(v) => v, None => CycleStatus::Draft },
            metadata: AuditMetadata::empty(),
        }
    }

    /// Build the AppraisalCycle entity under a fresh random identifier.
    ///
    /// Returns Err if any required field without a default is missing.
    pub fn build(self) -> (r: Result<AppraisalCycle, String>)
        ensures
            match self.missing() {
                Some(msg) => r matches Err(m) && m@ == msg,
                None => r matches Ok(x) && x == self.built(x.id) && is_random_uuid(x.id),
            },
    {
        let name = match self.name {
            Some(v) => v,
            None => return Err(String::from_str("name is required")),
        };
        let period_start = match self.period_start {
            Some(v) => v,
            None => return Err(String::from_str("period_start is required")),
        };
        let period_end = match self.period_end {
            Some(v) => v,
            None => return Err(String::from_str("period_end is required")),
        };
        Ok(AppraisalCycle {
            id: generate_uuid(),
            name,
            cycle_type: self.cycle_type,
            period_start,
            period_end,
            status: match self.status {
                Some(v) => v,
                None => CycleStatus::default(),
            },
            metadata: AuditMetadata::default(),
        })
    }
}

impl Default for AppraisalCycleBuilder {
    fn default() -> (r: AppraisalCycleBuilder)
        ensures
            r.spec_name() is None,
            r.spec_cycle_type() is None,
            r.spec_period_start() is None,
            r.spec_period_end() is None,
            r.spec_status() is None,
    {
        AppraisalCycleBuilder {
            name: None,
            cycle_type: None,
            period_start: None,
            period_end: None,
            status: None,
        }
    }
}

} // verus!
