//! An employee's appraisal in a cycle.

use vstd::prelude::*;
use vstd::string::*;
use crate::appraisal_status::AppraisalStatus;
use crate::common::{AuditMetadata, Entity, InvalidId, parse_id, set_id_from_text};
use crate::json::{json_opt_decimal, json_opt_timestamp, json_uuid, lemma_patched_all, lemma_patched_none, lemma_patched_step, opt_decimal, opt_decimal_reader, opt_timestamp_reader, patch_view, patched, uuid_reader};
use crate::text::text_eq;
use crate::values::{Decimal, Timestamp, Uuid, generate_uuid, is_random_uuid, uuid_parse, uuid_text, uuid_to_text};

verus! {

/// Strongly-typed ID for Appraisal
#[derive(Debug, Clone, Copy, PartialEq, Eq, Hash, Structural)]
pub struct AppraisalId(pub Uuid);

impl AppraisalId {
    /// The identifier holding `id`.
    pub fn new(id: Uuid) -> (r: AppraisalId)
        ensures
            r.0 == id,
    {
        AppraisalId(id)
    }

    /// A fresh random identifier.
    pub fn generate() -> (r: AppraisalId)
        ensures
            is_random_uuid(r.0),
    {
        AppraisalId(generate_uuid())
    }

    /// The UUID inside.
    pub fn into_inner(self) -> (r: Uuid)
        ensures
            r == self.0,
    {
        self.0
    }

    /// A reference to the UUID inside.
    pub fn as_ref(&self) -> (r: &Uuid)
        ensures
            *r == self.0,
    {
        &self.0
    }

    /// The hyphenated lower-case form.
    pub fn to_string(&self) -> (r: String)
        ensures
            r@ == uuid_text(self.0),
    {
        uuid_to_text(self.0)
    }

    /// Parses an identifier; the hyphenated form of an identifier gives it
    /// back.
    pub fn from_str(s: &str) -> (r: Result<AppraisalId, InvalidId>)
        ensures
            match uuid_parse(s@) {
                Some(v) => r == Ok::<AppraisalId, InvalidId>(AppraisalId(v)),
                None => r matches Err(e) && e.text@ == s@,
            },
            forall|v: u128| s@ == uuid_text(v) ==> r == Ok::<AppraisalId, InvalidId>(AppraisalId(v)),
    {
        match parse_id(s) {
            Ok(v) => Ok(AppraisalId(v)),
            Err(e) => Err(e),
        }
    }
}

impl From<Uuid> for AppraisalId {
    fn from(id: Uuid) -> (r: AppraisalId) {
        AppraisalId(id)
    }
}

impl vstd::std_specs::convert::FromSpecImpl<Uuid> for AppraisalId {
    open spec fn obeys_from_spec() -> bool {
        true
    }

    open spec fn from_spec(id: Uuid) -> AppraisalId {
        AppraisalId(id)
    }
}

impl From<AppraisalId> for Uuid {
    fn from(id: AppraisalId) -> (r: Uuid) {
        id.0
    }
}

impl vstd::std_specs::convert::FromSpecImpl<AppraisalId> for Uuid {
    open spec fn obeys_from_spec() -> bool {
        true
    }

    open spec fn from_spec(id: AppraisalId) -> Uuid {
        id.0
    }
}

/// An employee's appraisal in a cycle.
#[derive(Debug, Clone)]
pub struct Appraisal {
    pub id: Uuid,
    pub employee_id: Uuid,
    pub cycle_id: Uuid,
    pub reviewer_id: Uuid,
    pub status: AppraisalStatus,
    pub overall_rating: Option<Decimal>,
    pub submitted_at: Option<Timestamp>,
    pub metadata: AuditMetadata,
}

impl Appraisal {
    /// Create a builder for Appraisal
    pub fn builder() -> (r: AppraisalBuilder)
        ensures
            r.spec_employee_id() is None,
            r.spec_cycle_id() is None,
            r.spec_reviewer_id() is None,
            r.spec_status() is None,
            r.spec_overall_rating() is None,
            r.spec_submitted_at() is None,
    {
        AppraisalBuilder {
            employee_id: None,
            cycle_id: None,
            reviewer_id: None,
            status: None,
            overall_rating: None,
            submitted_at: None,
        }
    }

    /// Create a new Appraisal with required fields, under a fresh random
    /// identifier.
    pub fn new(employee_id: Uuid, cycle_id: Uuid, reviewer_id: Uuid, status: AppraisalStatus) -> (r: Appraisal)
        ensures
            is_random_uuid(r.id),
            r.employee_id == employee_id,
            r.cycle_id == cycle_id,
            r.reviewer_id == reviewer_id,
            r.status == status,
            r.overall_rating is None,
            r.submitted_at is None,
            r.metadata == AuditMetadata::empty(),
    {
        Appraisal {
            id: generate_uuid(),
            employee_id,
            cycle_id,
            reviewer_id,
            status,
            overall_rating: None,
            submitted_at: None,
            metadata: AuditMetadata::default(),
        }
    }

    /// Get the entity's unique identifier
    pub fn id(&self) -> (r: &Uuid)
        ensures
            *r == self.id,
    {
        &self.id
    }

    /// Get a strongly-typed ID for this entity
    pub fn typed_id(&self) -> (r: AppraisalId)
        ensures
            r == AppraisalId(self.id),
    {
        AppraisalId(self.id)
    }

    /// Get when this entity was created
    pub fn created_at(&self) -> (r: Option<&Timestamp>)
        ensures
            r == match self.metadata.created_at { Some(t) => Some(&t), None => None },
    {
        self.metadata.created_at.as_ref()
    }

    /// Get when this entity was last updated
    pub fn updated_at(&self) -> (r: Option<&Timestamp>)
        ensures
            r == match self.metadata.updated_at { Some(t) => Some(&t), None => None },
    {
        self.metadata.updated_at.as_ref()
    }

    /// Check if this entity is soft deleted
    pub fn is_deleted(&self) -> (r: bool)
        ensures
            r == self.metadata.deleted_at is Some,
    {
        self.metadata.deleted_at.is_some()
    }

    /// Check if this entity is active (not deleted)
    pub fn is_active(&self) -> (r: bool)
        ensures
            r == self.metadata.deleted_at is None,
    {
        self.metadata.deleted_at.is_none()
    }

    /// Get when this entity was deleted
    pub fn deleted_at(&self) -> (r: Option<&Timestamp>)
        ensures
            r == match self.metadata.deleted_at { Some(t) => Some(&t), None => None },
    {
        self.metadata.deleted_at.as_ref()
    }

    /// Get who created this entity
    pub fn created_by(&self) -> (r: Option<&Uuid>)
        ensures
            r == match self.metadata.created_by { Some(t) => Some(&t), None => None },
    {
        self.metadata.created_by.as_ref()
    }

    /// Get who last updated this entity
    pub fn updated_by(&self) -> (r: Option<&Uuid>)
        ensures
            r == match self.metadata.updated_by { Some(t) => Some(&t), None => None },
    {
        self.metadata.updated_by.as_ref()
    }

    /// Get who deleted this entity
    pub fn deleted_by(&self) -> (r: Option<&Uuid>)
        ensures
            r == match self.metadata.deleted_by { Some(t) => Some(&t), None => None },
    {
        self.metadata.deleted_by.as_ref()
    }

    /// Get the current status
    pub fn status(&self) -> (r: &AppraisalStatus)
        ensures
            *r == self.status,
    {
        &self.status
    }

    /// Set the overall_rating field (chainable)
    pub fn with_overall_rating(self, value: Decimal) -> (r: Appraisal)
        ensures
            r == (Appraisal { overall_rating: Some(value), ..self }),
    {
        let mut s = self;
        s.overall_rating = Some(value);
        s
    }

    /// Set the submitted_at field (chainable)
    pub fn with_submitted_at(self, value: Timestamp) -> (r: Appraisal)
        ensures
            r == (Appraisal { submitted_at: Some(value), ..self }),
    {
        let mut s = self;
        s.submitted_at = Some(value);
        s
    }

    /// Apply partial updates from (field name, JSON text of the value) pairs:
    /// an entry whose name is a patchable field and whose value reads as that
    /// field's type overwrites it, in order; other entries are ignored.
    pub fn apply_patch(&mut self, fields: Vec<(String, String)>)
        ensures
            final(self).id == old(self).id,
            final(self).metadata == old(self).metadata,
            final(self).employee_id == patched(patch_view(fields@), "employee_id"@, uuid_reader(), old(self).employee_id),
            final(self).cycle_id == patched(patch_view(fields@), "cycle_id"@, uuid_reader(), old(self).cycle_id),
            final(self).reviewer_id == patched(patch_view(fields@), "reviewer_id"@, uuid_reader(), old(self).reviewer_id),
            final(self).status == patched(patch_view(fields@), "status"@, AppraisalStatus::json_reader(), old(self).status),
            opt_decimal(final(self).overall_rating) == patched(patch_view(fields@), "overall_rating"@, opt_decimal_reader(), opt_decimal(old(self).overall_rating)),
            final(self).submitted_at == patched(patch_view(fields@), "submitted_at"@, opt_timestamp_reader(), old(self).submitted_at),
    {
        let ghost f = fields@;
        let ghost start = *self;
        proof {
            reveal_strlit("employee_id");
            reveal_strlit("cycle_id");
            reveal_strlit("reviewer_id");
            reveal_strlit("status");
            reveal_strlit("overall_rating");
            reveal_strlit("submitted_at");
            lemma_patched_none(f, "employee_id"@, uuid_reader(), start.employee_id);
            lemma_patched_none(f, "cycle_id"@, uuid_reader(), start.cycle_id);
            lemma_patched_none(f, "reviewer_id"@, uuid_reader(), start.reviewer_id);
            lemma_patched_none(f, "status"@, AppraisalStatus::json_reader(), start.status);
            lemma_patched_none(f, "overall_rating"@, opt_decimal_reader(), opt_decimal(start.overall_rating));
            lemma_patched_none(f, "submitted_at"@, opt_timestamp_reader(), start.submitted_at);
        }
        let mut i: usize = 0;
        while i < fields.len()
            invariant
                f == fields@,
                i <= fields.len(),
                self.id == start.id,
                self.metadata == start.metadata,
                self.employee_id == patched(patch_view(f.take(i as int)), "employee_id"@, uuid_reader(), start.employee_id),
                self.cycle_id == patched(patch_view(f.take(i as int)), "cycle_id"@, uuid_reader(), start.cycle_id),
                self.reviewer_id == patched(patch_view(f.take(i as int)), "reviewer_id"@, uuid_reader(), start.reviewer_id),
                self.status == patched(patch_view(f.take(i as int)), "status"@, AppraisalStatus::json_reader(), start.status),
                opt_decimal(self.overall_rating) == patched(patch_view(f.take(i as int)), "overall_rating"@, opt_decimal_reader(), opt_decimal(start.overall_rating)),
                self.submitted_at == patched(patch_view(f.take(i as int)), "submitted_at"@, opt_timestamp_reader(), start.submitted_at),
            decreases fields.len() - i,
        {
            let key = fields[i].0.as_str();
            let value = fields[i].1.as_str();
            proof {
                reveal_strlit("employee_id");
                reveal_strlit("cycle_id");
                reveal_strlit("reviewer_id");
                reveal_strlit("status");
                reveal_strlit("overall_rating");
                reveal_strlit("submitted_at");
                assert("employee_id"@.len() != "cycle_id"@.len());
                assert("employee_id"@[0] != "reviewer_id"@[0]);
                assert("employee_id"@.len() != "status"@.len());
                assert("employee_id"@.len() != "overall_rating"@.len());
                assert("employee_id"@.len() != "submitted_at"@.len());
                assert("cycle_id"@.len() != "reviewer_id"@.len());
                assert("cycle_id"@.len() != "status"@.len());
                assert("cycle_id"@.len() != "overall_rating"@.len());
                assert("cycle_id"@.len() != "submitted_at"@.len());
                assert("reviewer_id"@.len() != "status"@.len());
                assert("reviewer_id"@.len() != "overall_rating"@.len());
                assert("reviewer_id"@.len() != "submitted_at"@.len());
                assert("status"@.len() != "overall_rating"@.len());
                assert("status"@.len() != "submitted_at"@.len());
                assert("overall_rating"@.len() != "submitted_at"@.len());
                lemma_patched_step(f, i as int, "employee_id"@, uuid_reader(), start.employee_id);
                lemma_patched_step(f, i as int, "cycle_id"@, uuid_reader(), start.cycle_id);
                lemma_patched_step(f, i as int, "reviewer_id"@, uuid_reader(), start.reviewer_id);
                lemma_patched_step(f, i as int, "status"@, AppraisalStatus::json_reader(), start.status);
                lemma_patched_step(f, i as int, "overall_rating"@, opt_decimal_reader(), opt_decimal(start.overall_rating));
                lemma_patched_step(f, i as int, "submitted_at"@, opt_timestamp_reader(), start.submitted_at);
            }
            if text_eq(key, "employee_id") {
                match json_uuid(value) {
                    Some(v) => { self.employee_id = v; },
                    None => {},
                }
            } else if text_eq(key, "cycle_id") {
                match json_uuid(value) {
                    Some(v) => { self.cycle_id = v; },
                    None => {},
                }
            } else if text_eq(key, "reviewer_id") {
                match json_uuid(value) {
                    Some(v) => { self.reviewer_id = v; },
                    None => {},
                }
            } else if text_eq(key, "status") {
                match AppraisalStatus::from_json(value) {
                    Some(v) => { self.status = v; },
                    None => {},
                }
            } else if text_eq(key, "overall_rating") {
                match json_opt_decimal(value) {
                    Some(v) => { self.overall_rating = v; },
                    None => {},
                }
            } else if text_eq(key, "submitted_at") {
                match json_opt_timestamp(value) {
                    Some(v) => { self.submitted_at = v; },
                    None => {},
                }
            }
            i = i + 1;
        }
        proof {
            lemma_patched_all::<u128>(f);
        }
    }

    /// The identifier as text (hyphenated lower case).
    pub fn entity_id_text(&self) -> (r: String)
        ensures
            r@ == uuid_text(self.id),
    {
        uuid_to_text(self.id)
    }

    /// Sets the identifier from text; a text that is not a UUID leaves it.
    pub fn set_entity_id(&mut self, id: &str)
        ensures
            *final(self) == (Appraisal {
                id: match uuid_parse(id@) { Some(v) => v, None => old(self).id },
                ..*old(self)
            }),
    {
        set_id_from_text(&mut self.id, id);
    }

    /// Records when this entity was created.
    pub fn set_created_at(&mut self, ts: Timestamp)
        ensures
            *final(self) == (Appraisal { metadata: AuditMetadata { created_at: Some(ts), ..old(self).metadata }, ..*old(self) }),
    {
        self.metadata.created_at = Some(ts);
    }

    /// Records when this entity was last updated.
    pub fn set_updated_at(&mut self, ts: Timestamp)
        ensures
            *final(self) == (Appraisal { metadata: AuditMetadata { updated_at: Some(ts), ..old(self).metadata }, ..*old(self) }),
    {
        self.metadata.updated_at = Some(ts);
    }

    /// Records (or clears) when this entity was soft deleted.
    pub fn set_deleted_at(&mut self, ts: Option<Timestamp>)
        ensures
            *final(self) == (Appraisal { metadata: AuditMetadata { deleted_at: ts, ..old(self).metadata }, ..*old(self) }),
    {
        self.metadata.deleted_at = ts;
    }

    /// The store's type hints for filtering and sorting: (column, type).
    pub fn column_types() -> (r: Vec<(String, String)>)
        ensures
            r@.map_values(|p: (String, String)| (p.0@, p.1@)) == seq![
                ("id"@, "uuid"@),
                ("employee_id"@, "uuid"@),
                ("cycle_id"@, "uuid"@),
                ("reviewer_id"@, "uuid"@),
                ("status"@, "appraisal_status"@),
            ],
    {
        let mut m: Vec<(String, String)> = Vec::new();
        m.push((String::from_str("id"), String::from_str("uuid")));
        m.push((String::from_str("employee_id"), String::from_str("uuid")));
        m.push((String::from_str("cycle_id"), String::from_str("uuid")));
        m.push((String::from_str("reviewer_id"), String::from_str("uuid")));
        m.push((String::from_str("status"), String::from_str("appraisal_status")));
        proof {
            assert(m@.map_values(|p: (String, String)| (p.0@, p.1@)) =~= seq![
                ("id"@, "uuid"@),
                ("employee_id"@, "uuid"@),
                ("cycle_id"@, "uuid"@),
                ("reviewer_id"@, "uuid"@),
                ("status"@, "appraisal_status"@),
            ]);
        }
        m
    }

    /// The text columns searched by the free-text filter.
    pub fn search_fields() -> (r: &'static [&'static str])
        ensures
            r@.len() == 0,
    {
        &[]
    }
}

impl Entity for Appraisal {
    type Id = Uuid;

    fn entity_id(&self) -> (r: &Uuid)
        ensures
            *r == self.id,
    {
        &self.id
    }

    fn entity_type() -> (r: &'static str)
        ensures
            r@ == "Appraisal"@,
    {
        "Appraisal"
    }
}

/// Builder for Appraisal entity
///
/// Provides a fluent API for constructing Appraisal instances.
/// System fields (id, metadata, timestamps) are auto-initialized.
#[derive(Debug, Clone)]
pub struct AppraisalBuilder {
    employee_id: Option<Uuid>,
    cycle_id: Option<Uuid>,
    reviewer_id: Option<Uuid>,
    status: Option<AppraisalStatus>,
    overall_rating: Option<Decimal>,
    submitted_at: Option<Timestamp>,
}

impl AppraisalBuilder {
    /// The `employee_id` set so far, if any.
    pub closed spec fn spec_employee_id(self) -> Option<Uuid> { self.employee_id }
    /// The `cycle_id` set so far, if any.
    pub closed spec fn spec_cycle_id(self) -> Option<Uuid> { self.cycle_id }
    /// The `reviewer_id` set so far, if any.
    pub closed spec fn spec_reviewer_id(self) -> Option<Uuid> { self.reviewer_id }
    /// The `status` set so far, if any.
    pub closed spec fn spec_status(self) -> Option<AppraisalStatus> { self.status }
    /// The `overall_rating` set so far, if any.
    pub closed spec fn spec_overall_rating(self) -> Option<Decimal> { self.overall_rating }
    /// The `submitted_at` set so far, if any.
    pub closed spec fn spec_submitted_at(self) -> Option<Timestamp> { self.submitted_at }

    /// Set the employee_id field (required)
    pub fn employee_id(self, value: Uuid) -> (r: AppraisalBuilder)
        ensures
            r.spec_employee_id() == Some(value),
            r.spec_cycle_id() == self.spec_cycle_id(),
            r.spec_reviewer_id() == self.spec_reviewer_id(),
            r.spec_status() == self.spec_status(),
            r.spec_overall_rating() == self.spec_overall_rating(),
            r.spec_submitted_at() == self.spec_submitted_at(),
    {
        let mut b = self;
        b.employee_id = Some(value);
        b
    }

    /// Set the cycle_id field (required)
    pub fn cycle_id(self, value: Uuid) -> (r: AppraisalBuilder)
        ensures
            r.spec_cycle_id() == Some(value),
            r.spec_employee_id() == self.spec_employee_id(),
            r.spec_reviewer_id() == self.spec_reviewer_id(),
            r.spec_status() == self.spec_status(),
            r.spec_overall_rating() == self.spec_overall_rating(),
            r.spec_submitted_at() == self.spec_submitted_at(),
    {
        let mut b = self;
        b.cycle_id = Some(value);
        b
    }

    /// Set the reviewer_id field (required)
    pub fn reviewer_id(self, value: Uuid) -> (r: AppraisalBuilder)
        ensures
            r.spec_reviewer_id() == Some(value),
            r.spec_employee_id() == self.spec_employee_id(),
            r.spec_cycle_id() == self.spec_cycle_id(),
            r.spec_status() == self.spec_status(),
            r.spec_overall_rating() == self.spec_overall_rating(),
            r.spec_submitted_at() == self.spec_submitted_at(),
    {
        let mut b = self;
        b.reviewer_id = Some(value);
        b
    }

    /// Set the status field (default: `AppraisalStatus::default()`)
    pub fn status(self, value: AppraisalStatus) -> (r: AppraisalBuilder)
        ensures
            r.spec_status() == Some(value),
            r.spec_employee_id() == self.spec_employee_id(),
            r.spec_cycle_id() == self.spec_cycle_id(),
            r.spec_reviewer_id() == self.spec_reviewer_id(),
            r.spec_overall_rating() == self.spec_overall_rating(),
            r.spec_submitted_at() == self.spec_submitted_at(),
    {
        let mut b = self;
        b.status = Some(value);
        b
    }

    /// Set the overall_rating field (optional)
    pub fn overall_rating(self, value: Decimal) -> (r: AppraisalBuilder)
        ensures
            r.spec_overall_rating() == Some(value),
            r.spec_employee_id() == self.spec_employee_id(),
            r.spec_cycle_id() == self.spec_cycle_id(),
            r.spec_reviewer_id() == self.spec_reviewer_id(),
            r.spec_status() == self.spec_status(),
            r.spec_submitted_at() == self.spec_submitted_at(),
    {
        let mut b = self;
        b.overall_rating = Some(value);
        b
    }

    /// Set the submitted_at field (optional)
    pub fn submitted_at(self, value: Timestamp) -> (r: AppraisalBuilder)
        ensures
            r.spec_submitted_at() == Some(value),
            r.spec_employee_id() == self.spec_employee_id(),
            r.spec_cycle_id() == self.spec_cycle_id(),
            r.spec_reviewer_id() == self.spec_reviewer_id(),
            r.spec_status() == self.spec_status(),
            r.spec_overall_rating() == self.spec_overall_rating(),
    {
        let mut b = self;
        b.submitted_at = Some(value);
        b
    }

    /// The text of the first required field that is missing, if any.
    pub open spec fn missing(self) -> Option<Seq<char>> {
        if self.spec_employee_id() is None {
            Some("employee_id is required"@)
        } else if self.spec_cycle_id() is None {
            Some("cycle_id is required"@)
        } else if self.spec_reviewer_id() is None {
            Some("reviewer_id is required"@)
        } else {
            None
        }
    }

    /// The entity this builder makes under `id`.
    pub open spec fn built(self, id: Uuid) -> Appraisal {
        Appraisal {
            id,
            employee_id: self.spec_employee_id().unwrap(),
            cycle_id: self.spec_cycle_id().unwrap(),
            reviewer_id: self.spec_reviewer_id().unwrap(),
            status: match self.spec_status() { Some(v) => v, None => AppraisalStatus::Draft },
            overall_rating: self.spec_overall_rating(),
            submitted_at: self.spec_submitted_at(),
            metadata: AuditMetadata::empty(),
        }
    }

    /// Build the Appraisal entity under a fresh random identifier.
    ///
    /// Returns Err if any required field without a default is missing.
    pub fn build(self) -> (r: Result<Appraisal, String>)
        ensures
            match self.missing() {
                Some(msg) => r matches Err(m) && m@ == msg,
                None => r matches Ok(x) && x == self.built(x.id) && is_random_uuid(x.id),
            },
    {
        let employee_id = match self.employee_id {
            Some(v) => v,
            None => return Err(String::from_str("employee_id is required")),
        };
        let cycle_id = match self.cycle_id {
            Some(v) => v,
            None => return Err(String::from_str("cycle_id is required")),
        };
        let reviewer_id = match self.reviewer_id {
            Some(v) => v,
            None => return Err(String::from_str("reviewer_id is required")),
        };
        Ok(Appraisal {
            id: generate_uuid(),
            employee_id,
            cycle_id,
            reviewer_id,
            status: match self.status {
                Some(v) => v,
                None => AppraisalStatus::default(),
            },
            overall_rating: self.overall_rating,
            submitted_at: self.submitted_at,
            metadata: AuditMetadata::default(),
        })
    }
}

impl Default for AppraisalBuilder {
    fn default() -> (r: AppraisalBuilder)
        ensures
            r.spec_employee_id() is None,
            r.spec_cycle_id() is None,
            r.spec_reviewer_id() is None,
            r.spec_status() is None,
            r.spec_overall_rating() is None,
            r.spec_submitted_at() is None,
    {
        AppraisalBuilder {
            employee_id: None,
            cycle_id: None,
            reviewer_id: None,
            status: None,
            overall_rating: None,
            submitted_at: None,
        }
    }
}

} // verus!
