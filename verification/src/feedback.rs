//! A piece of feedback from one employee to another.

use vstd::prelude::*;
use vstd::string::*;
use crate::feedback_relationship::FeedbackRelationship;
use crate::common::{AuditMetadata, Entity, InvalidId, parse_id, set_id_from_text};
use crate::json::{bool_reader, json_bool, json_opt_uuid, json_string, json_uuid, lemma_patched_all, lemma_patched_none, lemma_patched_step, opt_uuid_reader, patch_view, patched, string_reader, uuid_reader};
use crate::text::text_eq;
use crate::values::{Timestamp, Uuid, generate_uuid, is_random_uuid, uuid_parse, uuid_text, uuid_to_text};

verus! {

/// Strongly-typed ID for Feedback
#[derive(Debug, Clone, Copy, PartialEq, Eq, Hash, Structural)]
pub struct FeedbackId(pub Uuid);

impl FeedbackId {
    /// The identifier holding `id`.
    pub fn new(id: Uuid) -> (r: FeedbackId)
        ensures
            r.0 == id,
    {
        FeedbackId(id)
    }

    /// A fresh random identifier.
    pub fn generate() -> (r: FeedbackId)
        ensures
            is_random_uuid(r.0),
    {
        FeedbackId(generate_uuid())
    }

    /// The UUID inside.
    pub fn into_inner(self) -> (r: Uuid)
        ensures
            r == self.0,
    {
        self.0
    }

    /// A reference to the UUID inside.
    pub fn as_ref(&self) -> (r: &Uuid)
        ensures
            *r == self.0,
    {
        &self.0
    }

    /// The hyphenated lower-case form.
    pub fn to_string(&self) -> (r: String)
        ensures
            r@ == uuid_text(self.0),
    {
        uuid_to_text(self.0)
    }

    /// Parses an identifier; the hyphenated form of an identifier gives it
    /// back.
    pub fn from_str(s: &str) -> (r: Result<FeedbackId, InvalidId>)
        ensures
            match uuid_parse(s@) {
                Some(v) => r == Ok::<FeedbackId, InvalidId>(FeedbackId(v)),
                None => r matches Err(e) && e.text@ == s@,
            },
            forall|v: u128| s@ == uuid_text(v) ==> r == Ok::<FeedbackId, InvalidId>(FeedbackId(v)),
    {
        match parse_id(s) {
            Ok(v) => Ok(FeedbackId(v)),
            Err(e) => Err(e),
        }
    }
}

impl From<Uuid> for FeedbackId {
    fn from(id: Uuid) -> (r: FeedbackId) {
        FeedbackId(id)
    }
}

impl vstd::std_specs::convert::FromSpecImpl<Uuid> for FeedbackId {
    open spec fn obeys_from_spec() -> bool {
        true
    }

    open spec fn from_spec(id: Uuid) -> FeedbackId {
        FeedbackId(id)
    }
}

impl From<FeedbackId> for Uuid {
    fn from(id: FeedbackId) -> (r: Uuid) {
        id.0
    }
}

impl vstd::std_specs::convert::FromSpecImpl<FeedbackId> for Uuid {
    open spec fn obeys_from_spec() -> bool {
        true
    }

    open spec fn from_spec(id: FeedbackId) -> Uuid {
        id.0
    }
}

/// A piece of feedback from one employee to another.
#[derive(Debug, Clone)]
pub struct Feedback {
    pub id: Uuid,
    pub cycle_id: Option<Uuid>,
    pub from_employee_id: Uuid,
    pub to_employee_id: Uuid,
    pub content: String,
    pub is_anonymous: bool,
    pub relationship: FeedbackRelationship,
    pub metadata: AuditMetadata,
}

impl Feedback {
    /// Create a builder for Feedback
    pub fn builder() -> (r: FeedbackBuilder)
        ensures
            r.spec_cycle_id() is None,
            r.spec_from_employee_id() is None,
            r.spec_to_employee_id() is None,
            r.spec_content() is None,
            r.spec_is_anonymous() is None,
            r.spec_relationship() is None,
    {
        FeedbackBuilder {
            cycle_id: None,
            from_employee_id: None,
            to_employee_id: None,
            content: None,
            is_anonymous: None,
            relationship: None,
        }
    }

    /// Create a new Feedback with required fields, under a fresh random
    /// identifier.
    pub fn new(from_employee_id: Uuid, to_employee_id: Uuid, content: String, is_anonymous: bool, relationship: FeedbackRelationship) -> (r: Feedback)
        ensures
            is_random_uuid(r.id),
            r.cycle_id is None,
            r.from_employee_id == from_employee_id,
            r.to_employee_id == to_employee_id,
            r.content == content,
            r.is_anonymous == is_anonymous,
            r.relationship == relationship,
            r.metadata == AuditMetadata::empty(),
    {
        Feedback {
            id: generate_uuid(),
            cycle_id: None,
            from_employee_id,
            to_employee_id,
            content,
            is_anonymous,
            relationship,
            metadata: AuditMetadata::default(),
        }
    }

    /// Get the entity's unique identifier
    pub fn id(&self) -> (r: &Uuid)
        ensures
            *r == self.id,
    {
        &self.id
    }

    /// Get a strongly-typed ID for this entity
    pub fn typed_id(&self) -> (r: FeedbackId)
        ensures
            r == FeedbackId(self.id),
    {
        FeedbackId(self.id)
    }

    /// Get when this entity was created
    pub fn created_at(&self) -> (r: Option<&Timestamp>)
        ensures
            r == match self.metadata.created_at { Some(t) => Some(&t), None => None },
    {
        self.metadata.created_at.as_ref()
    }

    /// Get when this entity was last updated
    pub fn updated_at(&self) -> (r: Option<&Timestamp>)
        ensures
            r == match self.metadata.updated_at { Some(t) => Some(&t), None => None },
    {
        self.metadata.updated_at.as_ref()
    }

    /// Check if this entity is soft deleted
    pub fn is_deleted(&self) -> (r: bool)
        ensures
            r == self.metadata.deleted_at is Some,
    {
        self.metadata.deleted_at.is_some()
    }

    /// Check if this entity is active (not deleted)
    pub fn is_active(&self) -> (r: bool)
        ensures
            r == self.metadata.deleted_at is None,
    {
        self.metadata.deleted_at.is_none()
    }

    /// Get when this entity was deleted
    pub fn deleted_at(&self) -> (r: Option<&Timestamp>)
        ensures
            r == match self.metadata.deleted_at { Some(t) => Some(&t), None => None },
    {
        self.metadata.deleted_at.as_ref()
    }

    /// Get who created this entity
    pub fn created_by(&self) -> (r: Option<&Uuid>)
        ensures
            r == match self.metadata.created_by { Some(t) => Some(&t), None => None },
    {
        self.metadata.created_by.as_ref()
    }

    /// Get who last updated this entity
    pub fn updated_by(&self) -> (r: Option<&Uuid>)
        ensures
            r == match self.metadata.updated_by { Some(t) => Some(&t), None => None },
    {
        self.metadata.updated_by.as_ref()
    }

    /// Get who deleted this entity
    pub fn deleted_by(&self) -> (r: Option<&Uuid>)
        ensures
            r == match self.metadata.deleted_by { Some(t) => Some(&t), None => None },
    {
        self.metadata.deleted_by.as_ref()
    }

    /// Set the cycle_id field (chainable)
    pub fn with_cycle_id(self, value: Uuid) -> (r: Feedback)
        ensures
            r == (Feedback { cycle_id: Some(value), ..self }),
    {
        let mut s = self;
        s.cycle_id = Some(value);
        s
    }

    /// Apply partial updates from (field name, JSON text of the value) pairs:
    /// an entry whose name is a patchable field and whose value reads as that
    /// field's type overwrites it, in order; other entries are ignored.
    pub fn apply_patch(&mut self, fields: Vec<(String, String)>)
        ensures
            final(self).id == old(self).id,
            final(self).metadata == old(self).metadata,
            final(self).cycle_id == patched(patch_view(fields@), "cycle_id"@, opt_uuid_reader(), old(self).cycle_id),
            final(self).from_employee_id == patched(patch_view(fields@), "from_employee_id"@, uuid_reader(), old(self).from_employee_id),
            final(self).to_employee_id == patched(patch_view(fields@), "to_employee_id"@, uuid_reader(), old(self).to_employee_id),
            final(self).content@ == patched(patch_view(fields@), "content"@, string_reader(), old(self).content@),
            final(self).is_anonymous == patched(patch_view(fields@), "is_anonymous"@, bool_reader(), old(self).is_anonymous),
            final(self).relationship == patched(patch_view(fields@), "relationship"@, FeedbackRelationship::json_reader(), old(self).relationship),
    {
        let ghost f = fields@;
        let ghost start = *self;
        proof {
            reveal_strlit("cycle_id");
            reveal_strlit("from_employee_id");
            reveal_strlit("to_employee_id");
            reveal_strlit("content");
            reveal_strlit("is_anonymous");
            reveal_strlit("relationship");
            lemma_patched_none(f, "cycle_id"@, opt_uuid_reader(), start.cycle_id);
            lemma_patched_none(f, "from_employee_id"@, uuid_reader(), start.from_employee_id);
            lemma_patched_none(f, "to_employee_id"@, uuid_reader(), start.to_employee_id);
            lemma_patched_none(f, "content"@, string_reader(), start.content@);
            lemma_patched_none(f, "is_anonymous"@, bool_reader(), start.is_anonymous);
            lemma_patched_none(f, "relationship"@, FeedbackRelationship::json_reader(), start.relationship);
        }
        let mut i: usize = 0;
        while i < fields.len()
            invariant
                f == fields@,
                i <= fields.len(),
                self.id == start.id,
                self.metadata == start.metadata,
                self.cycle_id == patched(patch_view(f.take(i as int)), "cycle_id"@, opt_uuid_reader(), start.cycle_id),
                self.from_employee_id == patched(patch_view(f.take(i as int)), "from_employee_id"@, uuid_reader(), start.from_employee_id),
                self.to_employee_id == patched(patch_view(f.take(i as int)), "to_employee_id"@, uuid_reader(), start.to_employee_id),
                self.content@ == patched(patch_view(f.take(i as int)), "content"@, string_reader(), start.content@),
                self.is_anonymous == patched(patch_view(f.take(i as int)), "is_anonymous"@, bool_reader(), start.is_anonymous),
                self.relationship == patched(patch_view(f.take(i as int)), "relationship"@, FeedbackRelationship::json_reader(), start.relationship),
            decreases fields.len() - i,
        {
            let key = fields[i].0.as_str();
            let value = fields[i].1.as_str();
            proof {
                reveal_strlit("cycle_id");
                reveal_strlit("from_employee_id");
                reveal_strlit("to_employee_id");
                reveal_strlit("content");
                reveal_strlit("is_anonymous");
                reveal_strlit("relationship");
                assert("cycle_id"@.len() != "from_employee_id"@.len());
                assert("cycle_id"@.len() != "to_employee_id"@.len());
                assert("cycle_id"@.len() != "content"@.len());
                assert("cycle_id"@.len() != "is_anonymous"@.len());
                assert("cycle_id"@.len() != "relationship"@.len());
                assert("from_employee_id"@.len() != "to_employee_id"@.len());
                assert("from_employee_id"@.len() != "content"@.len());
                assert("from_employee_id"@.len() != "is_anonymous"@.len());
                assert("from_employee_id"@.len() != "relationship"@.len());
                assert("to_employee_id"@.len() != "content"@.len());
                assert("to_employee_id"@.len() != "is_anonymous"@.len());
                assert("to_employee_id"@.len() != "relationship"@.len());
                assert("content"@.len() != "is_anonymous"@.len());
                assert("content"@.len() != "relationship"@.len());
                assert("is_anonymous"@[0] != "relationship"@[0]);
                lemma_patched_step(f, i as int, "cycle_id"@, opt_uuid_reader(), start.cycle_id);
                lemma_patched_step(f, i as int, "from_employee_id"@, uuid_reader(), start.from_employee_id);
                lemma_patched_step(f, i as int, "to_employee_id"@, uuid_reader(), start.to_employee_id);
                lemma_patched_step(f, i as int, "content"@, string_reader(), start.content@);
                lemma_patched_step(f, i as int, "is_anonymous"@, bool_reader(), start.is_anonymous);
                lemma_patched_step(f, i as int, "relationship"@, FeedbackRelationship::json_reader(), start.relationship);
            }
            if text_eq(key, "cycle_id") {
                match json_opt_uuid(value) {
                    Some(v) => { self.cycle_id = v; },
                    None => {},
                }
            } else if text_eq(key, "from_employee_id") {
                match json_uuid(value) {
                    Some(v) => { self.from_employee_id = v; },
                    None => {},
                }
            } else if text_eq(key, "to_employee_id") {
                match json_uuid(value) {
                    Some(v) => { self.to_employee_id = v; },
                    None => {},
                }
            } else if text_eq(key, "content") {
                match json_string(value) {
                    Some(v) => { self.content = v; },
                    None => {},
                }
            } else if text_eq(key, "is_anonymous") {
                match json_bool(value) {
                    Some(v) => { self.is_anonymous = v; },
                    None => {},
                }
            } else if text_eq(key, "relationship") {
                match FeedbackRelationship::from_json(value) {
                    Some(v) => { self.relationship = v; },
                    None => {},
                }
            }
            i = i + 1;
        }
        proof {
            lemma_patched_all::<u128>(f);
        }
    }

    /// The identifier as text (hyphenated lower case).
    pub fn entity_id_text(&self) -> (r: String)
        ensures
            r@ == uuid_text(self.id),
    {
        uuid_to_text(self.id)
    }

    /// Sets the identifier from text; a text that is not a UUID leaves it.
    pub fn set_entity_id(&mut self, id: &str)
        ensures
            *final(self) == (Feedback {
                id: match uuid_parse(id@) { Some(v) => v, None => old(self).id },
                ..*old(self)
            }),
    {
        set_id_from_text(&mut self.id, id);
    }

    /// Records when this entity was created.
    pub fn set_created_at(&mut self, ts: Timestamp)
        ensures
            *final(self) == (Feedback { metadata: AuditMetadata { created_at: Some(ts), ..old(self).metadata }, ..*old(self) }),
    {
        self.metadata.created_at = Some(ts);
    }

    /// Records when this entity was last updated.
    pub fn set_updated_at(&mut self, ts: Timestamp)
        ensures
            *final(self) == (Feedback { metadata: AuditMetadata { updated_at: Some(ts), ..old(self).metadata }, ..*old(self) }),
    {
        self.metadata.updated_at = Some(ts);
    }

    /// Records (or clears) when this entity was soft deleted.
    pub fn set_deleted_at(&mut self, ts: Option<Timestamp>)
        ensures
            *final(self) == (Feedback { metadata: AuditMetadata { deleted_at: ts, ..old(self).metadata }, ..*old(self) }),
    {
        self.metadata.deleted_at = ts;
    }

    /// The store's type hints for filtering and sorting: (column, type).
    pub fn column_types() -> (r: Vec<(String, String)>)
        ensures
            r@.map_values(|p: (String, String)| (p.0@, p.1@)) == seq![
                ("id"@, "uuid"@),
                ("cycle_id"@, "uuid"@),
                ("from_employee_id"@, "uuid"@),
                ("to_employee_id"@, "uuid"@),
                ("relationship"@, "feedback_relationship"@),
            ],
    {
        let mut m: Vec<(String, String)> = Vec::new();
        m.push((String::from_str("id"), String::from_str("uuid")));
        m.push((String::from_str("cycle_id"), String::from_str("uuid")));
        m.push((String::from_str("from_employee_id"), String::from_str("uuid")));
        m.push((String::from_str("to_employee_id"), String::from_str("uuid")));
        m.push((String::from_str("relationship"), String::from_str("feedback_relationship")));
        proof {
            assert(m@.map_values(|p: (String, String)| (p.0@, p.1@)) =~= seq![
                ("id"@, "uuid"@),
                ("cycle_id"@, "uuid"@),
                ("from_employee_id"@, "uuid"@),
                ("to_employee_id"@, "uuid"@),
                ("relationship"@, "feedback_relationship"@),
            ]);
        }
        m
    }

    /// The text columns searched by the free-text filter.
    pub fn search_fields() -> (r: &'static [&'static str])
        ensures
            r@.len() == 1,
            r@[0]@ == "content"@,
    {
        &["content"]
    }
}

impl Entity for Feedback {
    type Id = Uuid;

    fn entity_id(&self) -> (r: &Uuid)
        ensures
            *r == self.id,
    {
        &self.id
    }

    fn entity_type() -> (r: &'static str)
        ensures
            r@ == "Feedback"@,
    {
        "Feedback"
    }
}

/// Builder for Feedback entity
///
/// Provides a fluent API for constructing Feedback instances.
/// System fields (id, metadata, timestamps) are auto-initialized.
#[derive(Debug, Clone)]
pub struct FeedbackBuilder {
    cycle_id: Option<Uuid>,
    from_employee_id: Option<Uuid>,
    to_employee_id: Option<Uuid>,
    content: Option<String>,
    is_anonymous: Option<bool>,
    relationship: Option<FeedbackRelationship>,
}

impl FeedbackBuilder {
    /// The `cycle_id` set so far, if any.
    pub closed spec fn spec_cycle_id(self) -> Option<Uuid> { self.cycle_id }
    /// The `from_employee_id` set so far, if any.
    pub closed spec fn spec_from_employee_id(self) -> Option<Uuid> { self.from_employee_id }
    /// The `to_employee_id` set so far, if any.
    pub closed spec fn spec_to_employee_id(self) -> Option<Uuid> { self.to_employee_id }
    /// The `content` set so far, if any.
    pub closed spec fn spec_content(self) -> Option<String> { self.content }
    /// The `is_anonymous` set so far, if any.
    pub closed spec fn spec_is_anonymous(self) -> Option<bool> { self.is_anonymous }
    /// The `relationship` set so far, if any.
    pub closed spec fn spec_relationship(self) -> Option<FeedbackRelationship> { self.relationship }

    /// Set the cycle_id field (optional)
    pub fn cycle_id(self, value: Uuid) -> (r: FeedbackBuilder)
        ensures
            r.spec_cycle_id() == Some(value),
            r.spec_from_employee_id() == self.spec_from_employee_id(),
            r.spec_to_employee_id() == self.spec_to_employee_id(),
            r.spec_content() == self.spec_content(),
            r.spec_is_anonymous() == self.spec_is_anonymous(),
            r.spec_relationship() == self.spec_relationship(),
    {
        let mut b = self;
        b.cycle_id = Some(value);
        b
    }

    /// Set the from_employee_id field (required)
    pub fn from_employee_id(self, value: Uuid) -> (r: FeedbackBuilder)
        ensures
            r.spec_from_employee_id() == Some(value),
            r.spec_cycle_id() == self.spec_cycle_id(),
            r.spec_to_employee_id() == self.spec_to_employee_id(),
            r.spec_content() == self.spec_content(),
            r.spec_is_anonymous() == self.spec_is_anonymous(),
            r.spec_relationship() == self.spec_relationship(),
    {
        let mut b = self;
        b.from_employee_id = Some(value);
        b
    }

    /// Set the to_employee_id field (required)
    pub fn to_employee_id(self, value: Uuid) -> (r: FeedbackBuilder)
        ensures
            r.spec_to_employee_id() == Some(value),
            r.spec_cycle_id() == self.spec_cycle_id(),
            r.spec_from_employee_id() == self.spec_from_employee_id(),
            r.spec_content() == self.spec_content(),
            r.spec_is_anonymous() == self.spec_is_anonymous(),
            r.spec_relationship() == self.spec_relationship(),
    {
        let mut b = self;
        b.to_employee_id = Some(value);
        b
    }

    /// Set the content field (required)
    pub fn content(self, value: String) -> (r: FeedbackBuilder)
        ensures
            r.spec_content() == Some(value),
            r.spec_cycle_id() == self.spec_cycle_id(),
            r.spec_from_employee_id() == self.spec_from_employee_id(),
            r.spec_to_employee_id() == self.spec_to_employee_id(),
            r.spec_is_anonymous() == self.spec_is_anonymous(),
            r.spec_relationship() == self.spec_relationship(),
    {
        let mut b = self;
        b.content = Some(value);
        b
    }

    /// Set the is_anonymous field (default: `false`)
    pub fn is_anonymous(self, value: bool) -> (r: FeedbackBuilder)
        ensures
            r.spec_is_anonymous() == Some(value),
            r.spec_cycle_id() == self.spec_cycle_id(),
            r.spec_from_employee_id() == self.spec_from_employee_id(),
            r.spec_to_employee_id() == self.spec_to_employee_id(),
            r.spec_content() == self.spec_content(),
            r.spec_relationship() == self.spec_relationship(),
    {
        let mut b = self;
        b.is_anonymous = Some(value);
        b
    }

    /// Set the relationship field (default: `FeedbackRelationship::default()`)
    pub fn relationship(self, value: FeedbackRelationship) -> (r: FeedbackBuilder)
        ensures
            r.spec_relationship() == Some(value),
            r.spec_cycle_id() == self.spec_cycle_id(),
            r.spec_from_employee_id() == self.spec_from_employee_id(),
            r.spec_to_employee_id() == self.spec_to_employee_id(),
            r.spec_content() == self.spec_content(),
            r.spec_is_anonymous() == self.spec_is_anonymous(),
    {
        let mut b = self;
        b.relationship = Some(value);
        b
    }

    /// The text of the first required field that is missing, if any.
    pub open spec fn missing(self) -> Option<Seq<char>> {
        if self.spec_from_employee_id() is None {
            Some("from_employee_id is required"@)
        } else if self.spec_to_employee_id() is None {
            Some("to_employee_id is required"@)
        } else if self.spec_content() is None {
            Some("content is required"@)
        } else {
            None
        }
    }

    /// The entity this builder makes under `id`.
    pub open spec fn built(self, id: Uuid) -> Feedback {
        Feedback {
            id,
            cycle_id: self.spec_cycle_id(),
            from_employee_id: self.spec_from_employee_id().unwrap(),
            to_employee_id: self.spec_to_employee_id().unwrap(),
            content: self.spec_content().unwrap(),
            is_anonymous: match self.spec_is_anonymous() { Some(v) => v, None => false },
            relationship: match self.spec_relationship() { Some(v) => v, None => FeedbackRelationship::Peer },
            metadata: AuditMetadata::empty(),
        }
    }

    /// Build the Feedback entity under a fresh random identifier.
    ///
    /// Returns Err if any required field without a default is missing.
    pub fn build(self) -> (r: Result<Feedback, String>)
        ensures
            match self.missing() {
                Some(msg) => r matches Err(m) && m@ == msg,
                None => r matches Ok(x) && x == self.built(x.id) && is_random_uuid(x.id),
            },
    {
        let from_employee_id = match self.from_employee_id {
            Some(v) => v,
            None => return Err(String::from_str("from_employee_id is required")),
        };
        let to_employee_id = match self.to_employee_id {
            Some(v) => v,
            None => return Err(String::from_str("to_employee_id is required")),
        };
        let content = match self.content {
            Some(v) => v,
            None => return Err(String::from_str("content is required")),
        };
        Ok(Feedback {
            id: generate_uuid(),
            cycle_id: self.cycle_id,
            from_employee_id,
            to_employee_id,
            content,
            is_anonymous: match self.is_anonymous {
                Some(v) => v,
                None => false,
            },
            relationship: match self.relationship {
                Some(v) => v,
                None => FeedbackRelationship::default(),
            },
            metadata: AuditMetadata::default(),
        })
    }
}

impl Default for FeedbackBuilder {
    fn default() -> (r: FeedbackBuilder)
        ensures
            r.spec_cycle_id() is None,
            r.spec_from_employee_id() is None,
            r.spec_to_employee_id() is None,
            r.spec_content() is None,
            r.spec_is_anonymous() is None,
            r.spec_relationship() is None,
    {
        FeedbackBuilder {
            cycle_id: None,
            from_employee_id: None,
            to_employee_id: None,
            content: None,
            is_anonymous: None,
            relationship: None,
        }
    }
}

} // verus!
