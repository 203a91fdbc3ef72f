//! An employee's place on the talent matrix for a cycle: performance and potential scores.

use vstd::prelude::*;
use vstd::string::*;
use crate::common::{AuditMetadata, Entity, InvalidId, parse_id, set_id_from_text};
use crate::json::{i32_reader, json_i32, json_opt_string, json_uuid, lemma_patched_all, lemma_patched_none, lemma_patched_step, opt_string_reader, opt_text, patch_view, patched, uuid_reader};
use crate::text::text_eq;
use crate::values::{Timestamp, Uuid, generate_uuid, is_random_uuid, uuid_parse, uuid_text, uuid_to_text};

verus! {

/// Strongly-typed ID for TalentMatrixEntry
#[derive(Debug, Clone, Copy, PartialEq, Eq, Hash, Structural)]
pub struct TalentMatrixEntryId(pub Uuid);

impl TalentMatrixEntryId {
    /// The identifier holding `id`.
    pub fn new(id: Uuid) -> (r: TalentMatrixEntryId)
        ensures
            r.0 == id,
    {
        TalentMatrixEntryId(id)
    }

    /// A fresh random identifier.
    pub fn generate() -> (r: TalentMatrixEntryId)
        ensures
            is_random_uuid(r.0),
    {
        TalentMatrixEntryId(generate_uuid())
    }

    /// The UUID inside.
    pub fn into_inner(self) -> (r: Uuid)
        ensures
            r == self.0,
    {
        self.0
    }

    /// A reference to the UUID inside.
    pub fn as_ref(&self) -> (r: &Uuid)
        ensures
            *r == self.0,
    {
        &self.0
    }

    /// The hyphenated lower-case form.
    pub fn to_string(&self) -> (r: String)
        ensures
            r@ == uuid_text(self.0),
    {
        uuid_to_text(self.0)
    }

    /// Parses an identifier; the hyphenated form of an identifier gives it
    /// back.
    pub fn from_str(s: &str) -> (r: Result<TalentMatrixEntryId, InvalidId>)
        ensures
            match uuid_parse(s@) {
                Some(v) => r == Ok::<TalentMatrixEntryId, InvalidId>(TalentMatrixEntryId(v)),
                None => r matches Err(e) && e.text@ == s@,
            },
            forall|v: u128| s@ == uuid_text(v) ==> r == Ok::<TalentMatrixEntryId, InvalidId>(TalentMatrixEntryId(v)),
    {
        match parse_id(s) {
            Ok(v) => Ok(TalentMatrixEntryId(v)),
            Err(e) => Err(e),
        }
    }
}

impl From<Uuid> for TalentMatrixEntryId {
    fn from(id: Uuid) -> (r: TalentMatrixEntryId) {
        TalentMatrixEntryId(id)
    }
}

impl vstd::std_specs::convert::FromSpecImpl<Uuid> for TalentMatrixEntryId {
    open spec fn obeys_from_spec() -> bool {
        true
    }

    open spec fn from_spec(id: Uuid) -> TalentMatrixEntryId {
        TalentMatrixEntryId(id)
    }
}

impl From<TalentMatrixEntryId> for Uuid {
    fn from(id: TalentMatrixEntryId) -> (r: Uuid) {
        id.0
    }
}

impl vstd::std_specs::convert::FromSpecImpl<TalentMatrixEntryId> for Uuid {
    open spec fn obeys_from_spec() -> bool {
        true
    }

    open spec fn from_spec(id: TalentMatrixEntryId) -> Uuid {
        id.0
    }
}

/// An employee's place on the talent matrix for a cycle: performance and potential scores.
#[derive(Debug, Clone)]
pub struct TalentMatrixEntry {
    pub id: Uuid,
    pub employee_id: Uuid,
    pub cycle_id: Uuid,
    pub performance_score: i32,
    pub potential_score: i32,
    pub box_label: Option<String>,
    pub metadata: AuditMetadata,
}

impl TalentMatrixEntry {
    /// Create a builder for TalentMatrixEntry
    pub fn builder() -> (r: TalentMatrixEntryBuilder)
        ensures
            r.spec_employee_id() is None,
            r.spec_cycle_id() is None,
            r.spec_performance_score() is None,
            r.spec_potential_score() is None,
            r.spec_box_label() is None,
    {
        TalentMatrixEntryBuilder {
            employee_id: None,
            cycle_id: None,
            performance_score: None,
            potential_score: None,
            box_label: None,
        }
    }

    /// Create a new TalentMatrixEntry with required fields, under a fresh random
    /// identifier.
    pub fn new(employee_id: Uuid, cycle_id: Uuid, performance_score: i32, potential_score: i32) -> (r: TalentMatrixEntry)
        ensures
            is_random_uuid(r.id),
            r.employee_id == employee_id,
            r.cycle_id == cycle_id,
            r.performance_score == performance_score,
            r.potential_score == potential_score,
            r.box_label is None,
            r.metadata == AuditMetadata::empty(),
    {
        TalentMatrixEntry {
            id: generate_uuid(),
            employee_id,
            cycle_id,
            performance_score,
            potential_score,
            box_label: None,
            metadata: AuditMetadata::default(),
        }
    }

    /// Get the entity's unique identifier
    pub fn id(&self) -> (r: &Uuid)
        ensures
            *r == self.id,
    {
        &self.id
    }

    /// Get a strongly-typed ID for this entity
    pub fn typed_id(&self) -> (r: TalentMatrixEntryId)
        ensures
            r == TalentMatrixEntryId(self.id),
    {
        TalentMatrixEntryId(self.id)
    }

    /// Get when this entity was created
    pub fn created_at(&self) -> (r: Option<&Timestamp>)
        ensures
            r == match self.metadata.created_at { Some(t) => Some(&t), None => None },
    {
        self.metadata.created_at.as_ref()
    }

    /// Get when this entity was last updated
    pub fn updated_at(&self) -> (r: Option<&Timestamp>)
        ensures
            r == match self.metadata.updated_at { Some(t) => Some(&t), None => None },
    {
        self.metadata.updated_at.as_ref()
    }

    /// Check if this entity is soft deleted
    pub fn is_deleted(&self) -> (r: bool)
        ensures
            r == self.metadata.deleted_at is Some,
    {
        self.metadata.deleted_at.is_some()
    }

    /// Check if this entity is active (not deleted)
    pub fn is_active(&self) -> (r: bool)
        ensures
            r == self.metadata.deleted_at is None,
    {
        self.metadata.deleted_at.is_none()
    }

    /// Get when this entity was deleted
    pub fn deleted_at(&self) -> (r: Option<&Timestamp>)
        ensures
            r == match self.metadata.deleted_at { Some(t) => Some(&t), None => None },
    {
        self.metadata.deleted_at.as_ref()
    }

    /// Get who created this entity
    pub fn created_by(&self) -> (r: Option<&Uuid>)
        ensures
            r == match self.metadata.created_by { Some(t) => Some(&t), None => None },
    {
        self.metadata.created_by.as_ref()
    }

    /// Get who last updated this entity
    pub fn updated_by(&self) -> (r: Option<&Uuid>)
        ensures
            r == match self.metadata.updated_by { Some(t) => Some(&t), None => None },
    {
        self.metadata.updated_by.as_ref()
    }

    /// Get who deleted this entity
    pub fn deleted_by(&self) -> (r: Option<&Uuid>)
        ensures
            r == match self.metadata.deleted_by { Some(t) => Some(&t), None => None },
    {
        self.metadata.deleted_by.as_ref()
    }

    /// Set the box_label field (chainable)
    pub fn with_box_label(self, value: String) -> (r: TalentMatrixEntry)
        ensures
            r == (TalentMatrixEntry { box_label: Some(value), ..self }),
    {
        let mut s = self;
        s.box_label = Some(value);
        s
    }

    /// Apply partial updates from (field name, JSON text of the value) pairs:
    /// an entry whose name is a patchable field and whose value reads as that
    /// field's type overwrites it, in order; other entries are ignored.
    pub fn apply_patch(&mut self, fields: Vec<(String, String)>)
        ensures
            final(self).id == old(self).id,
            final(self).metadata == old(self).metadata,
            final(self).employee_id == patched(patch_view(fields@), "employee_id"@, uuid_reader(), old(self).employee_id),
            final(self).cycle_id == patched(patch_view(fields@), "cycle_id"@, uuid_reader(), old(self).cycle_id),
            final(self).performance_score == patched(patch_view(fields@), "performance_score"@, i32_reader(), old(self).performance_score),
            final(self).potential_score == patched(patch_view(fields@), "potential_score"@, i32_reader(), old(self).potential_score),
            opt_text(final(self).box_label) == patched(patch_view(fields@), "box_label"@, opt_string_reader(), opt_text(old(self).box_label)),
    {
        let ghost f = fields@;
        let ghost start = *self;
        proof {
            reveal_strlit("employee_id");
            reveal_strlit("cycle_id");
            reveal_strlit("performance_score");
            reveal_strlit("potential_score");
            reveal_strlit("box_label");
            lemma_patched_none(f, "employee_id"@, uuid_reader(), start.employee_id);
            lemma_patched_none(f, "cycle_id"@, uuid_reader(), start.cycle_id);
            lemma_patched_none(f, "performance_score"@, i32_reader(), start.performance_score);
            lemma_patched_none(f, "potential_score"@, i32_reader(), start.potential_score);
            lemma_patched_none(f, "box_label"@, opt_string_reader(), opt_text(start.box_label));
        }
        let mut i: usize = 0;
        while i < fields.len()
            invariant
                f == fields@,
                i <= fields.len(),
                self.id == start.id,
                self.metadata == start.metadata,
                self.employee_id == patched(patch_view(f.take(i as int)), "employee_id"@, uuid_reader(), start.employee_id),
                self.cycle_id == patched(patch_view(f.take(i as int)), "cycle_id"@, uuid_reader(), start.cycle_id),
                self.performance_score == patched(patch_view(f.take(i as int)), "performance_score"@, i32_reader(), start.performance_score),
                self.potential_score == patched(patch_view(f.take(i as int)), "potential_score"@, i32_reader(), start.potential_score),
                opt_text(self.box_label) == patched(patch_view(f.take(i as int)), "box_label"@, opt_string_reader(), opt_text(start.box_label)),
            decreases fields.len() - i,
        {
            let key = fields[i].0.as_str();
            let value = fields[i].1.as_str();
            proof {
                reveal_strlit("employee_id");
                reveal_strlit("cycle_id");
                reveal_strlit("performance_score");
                reveal_strlit("potential_score");
                reveal_strlit("box_label");
                assert("employee_id"@.len() != "cycle_id"@.len());
                assert("employee_id"@.len() != "performance_score"@.len());
                assert("employee_id"@.len() != "potential_score"@.len());
                assert("employee_id"@.len() != "box_label"@.len());
                assert("cycle_id"@.len() != "performance_score"@.len());
                assert("cycle_id"@.len() != "potential_score"@.len());
                assert("cycle_id"@.len() != "box_label"@.len());
                assert("performance_score"@.len() != "potential_score"@.len());
                assert("performance_score"@.len() != "box_label"@.len());
                assert("potential_score"@.len() != "box_label"@.len());
                lemma_patched_step(f, i as int, "employee_id"@, uuid_reader(), start.employee_id);
                lemma_patched_step(f, i as int, "cycle_id"@, uuid_reader(), start.cycle_id);
                lemma_patched_step(f, i as int, "performance_score"@, i32_reader(), start.performance_score);
                lemma_patched_step(f, i as int, "potential_score"@, i32_reader(), start.potential_score);
                lemma_patched_step(f, i as int, "box_label"@, opt_string_reader(), opt_text(start.box_label));
            }
            if text_eq(key, "employee_id") {
                match json_uuid(value) {
                    Some(v) => { self.employee_id = v; },
                    None => {},
                }
            } else if text_eq(key, "cycle_id") {
                match json_uuid(value) {
                    Some(v) => { self.cycle_id = v; },
                    None => {},
                }
            } else if text_eq(key, "performance_score") {
                match json_i32(value) {
                    Some(v) => { self.performance_score = v; },
                    None => {},
                }
            } else if text_eq(key, "potential_score") {
                match json_i32(value) {
                    Some(v) => { self.potential_score = v; },
                    None => {},
                }
            } else if text_eq(key, "box_label") {
                match json_opt_string(value) {
                    Some(v) => { self.box_label = v; },
                    None => {},
                }
            }
            i = i + 1;
        }
        proof {
            lemma_patched_all::<u128>(f);
        }
    }

    /// The identifier as text (hyphenated lower case).
    pub fn entity_id_text(&self) -> (r: String)
        ensures
            r@ == uuid_text(self.id),
    {
        uuid_to_text(self.id)
    }

    /// Sets the identifier from text; a text that is not a UUID leaves it.
    pub fn set_entity_id(&mut self, id: &str)
        ensures
            *final(self) == (TalentMatrixEntry {
                id: match uuid_parse(id@) { Some(v) => v, None => old(self).id },
                ..*old(self)
            }),
    {
        set_id_from_text(&mut self.id, id);
    }

    /// Records when this entity was created.
    pub fn set_created_at(&mut self, ts: Timestamp)
        ensures
            *final(self) == (TalentMatrixEntry { metadata: AuditMetadata { created_at: Some(ts), ..old(self).metadata }, ..*old(self) }),
    {
        self.metadata.created_at = Some(ts);
    }

    /// Records when this entity was last updated.
    pub fn set_updated_at(&mut self, ts: Timestamp)
        ensures
            *final(self) == (TalentMatrixEntry { metadata: AuditMetadata { updated_at: Some(ts), ..old(self).metadata }, ..*old(self) }),
    {
        self.metadata.updated_at = Some(ts);
    }

    /// Records (or clears) when this entity was soft deleted.
    pub fn set_deleted_at(&mut self, ts: Option<Timestamp>)
        ensures
            *final(self) == (TalentMatrixEntry { metadata: AuditMetadata { deleted_at: ts, ..old(self).metadata }, ..*old(self) }),
    {
        self.metadata.deleted_at = ts;
    }

    /// The store's type hints for filtering and sorting: (column, type).
    pub fn column_types() -> (r: Vec<(String, String)>)
        ensures
            r@.map_values(|p: (String, String)| (p.0@, p.1@)) == seq![
                ("id"@, "uuid"@),
                ("employee_id"@, "uuid"@),
                ("cycle_id"@, "uuid"@),
            ],
    {
        let mut m: Vec<(String, String)> = Vec::new();
        m.push((String::from_str("id"), String::from_str("uuid")));
        m.push((String::from_str("employee_id"), String::from_str("uuid")));
        m.push((String::from_str("cycle_id"), String::from_str("uuid")));
        proof {
            assert(m@.map_values(|p: (String, String)| (p.0@, p.1@)) =~= seq![
                ("id"@, "uuid"@),
                ("employee_id"@, "uuid"@),
                ("cycle_id"@, "uuid"@),
            ]);
        }
        m
    }

    /// The text columns searched by the free-text filter.
    pub fn search_fields() -> (r: &'static [&'static str])
        ensures
            r@.len() == 0,
    {
        &[]
    }
}

impl Entity for TalentMatrixEntry {
    type Id = Uuid;

    fn entity_id(&self) -> (r: &Uuid)
        ensures
            *r == self.id,
    {
        &self.id
    }

    fn entity_type() -> (r: &'static str)
        ensures
            r@ == "TalentMatrixEntry"@,
    {
        "TalentMatrixEntry"
    }
}

/// Builder for TalentMatrixEntry entity
///
/// Provides a fluent API for constructing TalentMatrixEntry instances.
/// System fields (id, metadata, timestamps) are auto-initialized.
#[derive(Debug, Clone)]
pub struct TalentMatrixEntryBuilder {
    employee_id: Option<Uuid>,
    cycle_id: Option<Uuid>,
    performance_score: Option<i32>,
    potential_score: Option<i32>,
    box_label: Option<String>,
}

impl TalentMatrixEntryBuilder {
    /// The `employee_id` set so far, if any.
    pub closed spec fn spec_employee_id(self) -> Option<Uuid> { self.employee_id }
    /// The `cycle_id` set so far, if any.
    pub closed spec fn spec_cycle_id(self) -> Option<Uuid> { self.cycle_id }
    /// The `performance_score` set so far, if any.
    pub closed spec fn spec_performance_score(self) -> Option<i32> { self.performance_score }
    /// The `potential_score` set so far, if any.
    pub closed spec fn spec_potential_score(self) -> Option<i32> { self.potential_score }
    /// The `box_label` set so far, if any.
    pub closed spec fn spec_box_label(self) -> Option<String> { self.box_label }

    /// Set the employee_id field (required)
    pub fn employee_id(self, value: Uuid) -> (r: TalentMatrixEntryBuilder)
        ensures
            r.spec_employee_id() == Some(value),
            r.spec_cycle_id() == self.spec_cycle_id(),
            r.spec_performance_score() == self.spec_performance_score(),
            r.spec_potential_score() == self.spec_potential_score(),
            r.spec_box_label() == self.spec_box_label(),
    {
        let mut b = self;
        b.employee_id = Some(value);
        b
    }

    /// Set the cycle_id field (required)
    pub fn cycle_id(self, value: Uuid) -> (r: TalentMatrixEntryBuilder)
        ensures
            r.spec_cycle_id() == Some(value),
            r.spec_employee_id() == self.spec_employee_id(),
            r.spec_performance_score() == self.spec_performance_score(),
            r.spec_potential_score() == self.spec_potential_score(),
            r.spec_box_label() == self.spec_box_label(),
    {
        let mut b = self;
        b.cycle_id = Some(value);
        b
    }

    /// Set the performance_score field (required)
    pub fn performance_score(self, value: i32) -> (r: TalentMatrixEntryBuilder)
        ensures
            r.spec_performance_score() == Some(value),
            r.spec_employee_id() == self.spec_employee_id(),
            r.spec_cycle_id() == self.spec_cycle_id(),
            r.spec_potential_score() == self.spec_potential_score(),
            r.spec_box_label() == self.spec_box_label(),
    {
        let mut b = self;
        b.performance_score = Some(value);
        b
    }

    /// Set the potential_score field (required)
    pub fn potential_score(self, value: i32) -> (r: TalentMatrixEntryBuilder)
        ensures
            r.spec_potential_score() == Some(value),
            r.spec_employee_id() == self.spec_employee_id(),
            r.spec_cycle_id() == self.spec_cycle_id(),
            r.spec_performance_score() == self.spec_performance_score(),
            r.spec_box_label() == self.spec_box_label(),
    {
        let mut b = self;
        b.potential_score = Some(value);
        b
    }

    /// Set the box_label field (optional)
    pub fn box_label(self, value: String) -> (r: TalentMatrixEntryBuilder)
        ensures
            r.spec_box_label() == Some(value),
            r.spec_employee_id() == self.spec_employee_id(),
            r.spec_cycle_id() == self.spec_cycle_id(),
            r.spec_performance_score() == self.spec_performance_score(),
            r.spec_potential_score() == self.spec_potential_score(),
    {
        let mut b = self;
        b.box_label = Some(value);
        b
    }

    /// The text of the first required field that is missing, if any.
    pub open spec fn missing(self) -> Option<Seq<char>> {
        if self.spec_employee_id() is None {
            Some("employee_id is required"@)
        } else if self.spec_cycle_id() is None {
            Some("cycle_id is required"@)
        } else if self.spec_performance_score() is None {
            Some("performance_score is required"@)
        } else if self.spec_potential_score() is None {
            Some("potential_score is required"@)
        } else {
            None
        }
    }

    /// The entity this builder makes under `id`.
    pub open spec fn built(self, id: Uuid) -> TalentMatrixEntry {
        TalentMatrixEntry {
            id,
            employee_id: self.spec_employee_id().unwrap(),
            cycle_id: self.spec_cycle_id().unwrap(),
            performance_score: self.spec_performance_score().unwrap(),
            potential_score: self.spec_potential_score().unwrap(),
            box_label: self.spec_box_label(),
            metadata: AuditMetadata::empty(),
        }
    }

    /// Build the TalentMatrixEntry entity under a fresh random identifier.
    ///
    /// Returns Err if any required field without a default is missing.
    pub fn build(self) -> (r: Result<TalentMatrixEntry, String>)
        ensures
            match self.missing() {
                Some(msg) => r matches Err(m) && m@ == msg,
                None => r matches Ok(x) && x == self.built(x.id) && is_random_uuid(x.id),
            },
    {
        let employee_id = match self.employee_id {
            Some(v) => v,
            None => return Err(String::from_str("employee_id is required")),
        };
        let cycle_id = match self.cycle_id {
            Some(v) => v,
            None => return Err(String::from_str("cycle_id is required")),
        };
        let performance_score = match self.performance_score {
            Some(v) => v,
            None => return Err(String::from_str("performance_score is required")),
        };
        let potential_score = match self.potential_score {
            Some(v) => v,
            None => return Err(String::from_str("potential_score is required")),
        };
        Ok(TalentMatrixEntry {
            id: generate_uuid(),
            employee_id,
            cycle_id,
            performance_score,
            potential_score,
            box_label: self.box_label,
            metadata: AuditMetadata::default(),
        })
    }
}

impl Default for TalentMatrixEntryBuilder {
    fn default() -> (r: TalentMatrixEntryBuilder)
        ensures
            r.spec_employee_id() is None,
            r.spec_cycle_id() is None,
            r.spec_performance_score() is None,
            r.spec_potential_score() is None,
            r.spec_box_label() is None,
    {
        TalentMatrixEntryBuilder {
            employee_id: None,
            cycle_id: None,
            performance_score: None,
            potential_score: None,
            box_label: None,
        }
    }
}

} // verus!
