//! A reward given to an employee.

use vstd::prelude::*;
use vstd::string::*;
use crate::reward_type::RewardType;
use crate::common::{AuditMetadata, Entity, InvalidId, parse_id, set_id_from_text};
use crate::json::{date_reader, json_date, json_opt_decimal, json_opt_string, json_opt_uuid, json_string, json_uuid, lemma_patched_all, lemma_patched_none, lemma_patched_step, opt_decimal, opt_decimal_reader, opt_string_reader, opt_text, opt_uuid_reader, patch_view, patched, string_reader, uuid_reader};
use crate::text::text_eq;
use crate::values::{Date, Decimal, Timestamp, Uuid, generate_uuid, is_random_uuid, uuid_parse, uuid_text, uuid_to_text};

verus! {

/// Strongly-typed ID for Reward
#[derive(Debug, Clone, Copy, PartialEq, Eq, Hash, Structural)]
pub struct RewardId(pub Uuid);

impl RewardId {
    /// The identifier holding `id`.
    pub fn new(id: Uuid) -> (r: RewardId)
        ensures
            r.0 == id,
    {
        RewardId(id)
    }

    /// A fresh random identifier.
    pub fn generate() -> (r: RewardId)
        ensures
            is_random_uuid(r.0),
    {
        RewardId(generate_uuid())
    }

    /// The UUID inside.
    pub fn into_inner(self) -> (r: Uuid)
        ensures
            r == self.0,
    {
        self.0
    }

    /// A reference to the UUID inside.
    pub fn as_ref(&self) -> (r: &Uuid)
        ensures
            *r == self.0,
    {
        &self.0
    }

    /// The hyphenated lower-case form.
    pub fn to_string(&self) -> (r: String)
        ensures
            r@ == uuid_text(self.0),
    {
        uuid_to_text(self.0)
    }

    /// Parses an identifier; the hyphenated form of an identifier gives it
    /// back.
    pub fn from_str(s: &str) -> (r: Result<RewardId, InvalidId>)
        ensures
            match uuid_parse(s@) {
                Some(v) => r == Ok::<RewardId, InvalidId>(RewardId(v)),
                None => r matches Err(e) && e.text@ == s@,
            },
            forall|v: u128| s@ == uuid_text(v) ==> r == Ok::<RewardId, InvalidId>(RewardId(v)),
    {
        match parse_id(s) {
            Ok(v) => Ok(RewardId(v)),
            Err(e) => Err(e),
        }
    }
}

impl From<Uuid> for RewardId {
    fn from(id: Uuid) -> (r: RewardId) {
        RewardId(id)
    }
}

impl vstd::std_specs::convert::FromSpecImpl<Uuid> for RewardId {
    open spec fn obeys_from_spec() -> bool {
        true
    }

    open spec fn from_spec(id: Uuid) -> RewardId {
        RewardId(id)
    }
}

impl From<RewardId> for Uuid {
    fn from(id: RewardId) -> (r: Uuid) {
        id.0
    }
}

impl vstd::std_specs::convert::FromSpecImpl<RewardId> for Uuid {
    open spec fn obeys_from_spec() -> bool {
        true
    }

    open spec fn from_spec(id: RewardId) -> Uuid {
        id.0
    }
}

/// A reward given to an employee.
#[derive(Debug, Clone)]
pub struct Reward {
    pub id: Uuid,
    pub employee_id: Uuid,
    pub cycle_id: Option<Uuid>,
    pub reward_type: RewardType,
    pub title: String,
    pub description: Option<String>,
    pub amount: Option<Decimal>,
    pub awarded_by: Option<Uuid>,
    pub awarded_at: Date,
    pub payroll_component_id: Option<Uuid>,
    pub metadata: AuditMetadata,
}

impl Reward {
    /// Create a builder for Reward
    pub fn builder() -> (r: RewardBuilder)
        ensures
            r.spec_employee_id() is None,
            r.spec_cycle_id() is None,
            r.spec_reward_type() is None,
            r.spec_title() is None,
            r.spec_description() is None,
            r.spec_amount() is None,
            r.spec_awarded_by() is None,
            r.spec_awarded_at() is None,
            r.spec_payroll_component_id() is None,
    {
        RewardBuilder {
            employee_id: None,
            cycle_id: None,
            reward_type: None,
            title: None,
            description: None,
            amount: None,
            awarded_by: None,
            awarded_at: None,
            payroll_component_id: None,
        }
    }

    /// Create a new Reward with required fields, under a fresh random
    /// identifier.
    pub fn new(employee_id: Uuid, reward_type: RewardType, title: String, awarded_at: Date) -> (r: Reward)
        ensures
            is_random_uuid(r.id),
            r.employee_id == employee_id,
            r.cycle_id is None,
            r.reward_type == reward_type,
            r.title == title,
            r.description is None,
            r.amount is None,
            r.awarded_by is None,
            r.awarded_at == awarded_at,
            r.payroll_component_id is None,
            r.metadata == AuditMetadata::empty(),
    {
        Reward {
            id: generate_uuid(),
            employee_id,
            cycle_id: None,
            reward_type,
            title,
            description: None,
            amount: None,
            awarded_by: None,
            awarded_at,
            payroll_component_id: None,
            metadata: AuditMetadata::default(),
        }
    }

    /// Get the entity's unique identifier
    pub fn id(&self) -> (r: &Uuid)
        ensures
            *r == self.id,
    {
        &self.id
    }

    /// Get a strongly-typed ID for this entity
    pub fn typed_id(&self) -> (r: RewardId)
        ensures
            r == RewardId(self.id),
    {
        RewardId(self.id)
    }

    /// Get when this entity was created
    pub fn created_at(&self) -> (r: Option<&Timestamp>)
        ensures
            r == match self.metadata.created_at { Some(t) => Some(&t), None => None },
    {
        self.metadata.created_at.as_ref()
    }

    /// Get when this entity was last updated
    pub fn updated_at(&self) -> (r: Option<&Timestamp>)
        ensures
            r == match self.metadata.updated_at { Some(t) => Some(&t), None => None },
    {
        self.metadata.updated_at.as_ref()
    }

    /// Check if this entity is soft deleted
    pub fn is_deleted(&self) -> (r: bool)
        ensures
            r == self.metadata.deleted_at is Some,
    {
        self.metadata.deleted_at.is_some()
    }

    /// Check if this entity is active (not deleted)
    pub fn is_active(&self) -> (r: bool)
        ensures
            r == self.metadata.deleted_at is None,
    {
        self.metadata.deleted_at.is_none()
    }

    /// Get when this entity was deleted
    pub fn deleted_at(&self) -> (r: Option<&Timestamp>)
        ensures
            r == match self.metadata.deleted_at { Some(t) => Some(&t), None => None },
    {
        self.metadata.deleted_at.as_ref()
    }

    /// Get who created this entity
    pub fn created_by(&self) -> (r: Option<&Uuid>)
        ensures
            r == match self.metadata.created_by { Some(t) => Some(&t), None => None },
    {
        self.metadata.created_by.as_ref()
    }

    /// Get who last updated this entity
    pub fn updated_by(&self) -> (r: Option<&Uuid>)
        ensures
            r == match self.metadata.updated_by { Some(t) => Some(&t), None => None },
    {
        self.metadata.updated_by.as_ref()
    }

    /// Get who deleted this entity
    pub fn deleted_by(&self) -> (r: Option<&Uuid>)
        ensures
            r == match self.metadata.deleted_by { Some(t) => Some(&t), None => None },
    {
        self.metadata.deleted_by.as_ref()
    }

    /// Set the cycle_id field (chainable)
    pub fn with_cycle_id(self, value: Uuid) -> (r: Reward)
        ensures
            r == (Reward { cycle_id: Some(value), ..self }),
    {
        let mut s = self;
        s.cycle_id = Some(value);
        s
    }

    /// Set the description field (chainable)
    pub fn with_description(self, value: String) -> (r: Reward)
        ensures
            r == (Reward { description: Some(value), ..self }),
    {
        let mut s = self;
        s.description = Some(value);
        s
    }

    /// Set the amount field (chainable)
    pub fn with_amount(self, value: Decimal) -> (r: Reward)
        ensures
            r == (Reward { amount: Some(value), ..self }),
    {
        let mut s = self;
        s.amount = Some(value);
        s
    }

    /// Set the awarded_by field (chainable)
    pub fn with_awarded_by(self, value: Uuid) -> (r: Reward)
        ensures
            r == (Reward { awarded_by: Some(value), ..self }),
    {
        let mut s = self;
        s.awarded_by = Some(value);
        s
    }

    /// Set the payroll_component_id field (chainable)
    pub fn with_payroll_component_id(self, value: Uuid) -> (r: Reward)
        ensures
            r == (Reward { payroll_component_id: Some(value), ..self }),
    {
        let mut s = self;
        s.payroll_component_id = Some(value);
        s
    }

    /// Apply partial updates from (field name, JSON text of the value) pairs:
    /// an entry whose name is a patchable field and whose value reads as that
    /// field's type overwrites it, in order; other entries are ignored.
    pub fn apply_patch(&mut self, fields: Vec<(String, String)>)
        ensures
            final(self).id == old(self).id,
            final(self).metadata == old(self).metadata,
            final(self).employee_id == patched(patch_view(fields@), "employee_id"@, uuid_reader(), old(self).employee_id),
            final(self).cycle_id == patched(patch_view(fields@), "cycle_id"@, opt_uuid_reader(), old(self).cycle_id),
            final(self).reward_type == patched(patch_view(fields@), "reward_type"@, RewardType::json_reader(), old(self).reward_type),
            final(self).title@ == patched(patch_view(fields@), "title"@, string_reader(), old(self).title@),
            opt_text(final(self).description) == patched(patch_view(fields@), "description"@, opt_string_reader(), opt_text(old(self).description)),
            opt_decimal(final(self).amount) == patched(patch_view(fields@), "amount"@, opt_decimal_reader(), opt_decimal(old(self).amount)),
            final(self).awarded_by == patched(patch_view(fields@), "awarded_by"@, opt_uuid_reader(), old(self).awarded_by),
            final(self).awarded_at == patched(patch_view(fields@), "awarded_at"@, date_reader(), old(self).awarded_at),
            final(self).payroll_component_id == patched(patch_view(fields@), "payroll_component_id"@, opt_uuid_reader(), old(self).payroll_component_id),
    {
        let ghost f = fields@;
        let ghost start = *self;
        proof {
            reveal_strlit("employee_id");
            reveal_strlit("cycle_id");
            reveal_strlit("reward_type");
            reveal_strlit("title");
            reveal_strlit("description");
            reveal_strlit("amount");
            reveal_strlit("awarded_by");
            reveal_strlit("awarded_at");
            reveal_strlit("payroll_component_id");
            lemma_patched_none(f, "employee_id"@, uuid_reader(), start.employee_id);
            lemma_patched_none(f, "cycle_id"@, opt_uuid_reader(), start.cycle_id);
            lemma_patched_none(f, "reward_type"@, RewardType::json_reader(), start.reward_type);
            lemma_patched_none(f, "title"@, string_reader(), start.title@);
            lemma_patched_none(f, "description"@, opt_string_reader(), opt_text(start.description));
            lemma_patched_none(f, "amount"@, opt_decimal_reader(), opt_decimal(start.amount));
            lemma_patched_none(f, "awarded_by"@, opt_uuid_reader(), start.awarded_by);
            lemma_patched_none(f, "awarded_at"@, date_reader(), start.awarded_at);
            lemma_patched_none(f, "payroll_component_id"@, opt_uuid_reader(), start.payroll_component_id);
        }
        let mut i: usize = 0;
        while i < fields.len()
            invariant
                f == fields@,
                i <= fields.len(),
                self.id == start.id,
                self.metadata == start.metadata,
                self.employee_id == patched(patch_view(f.take(i as int)), "employee_id"@, uuid_reader(), start.employee_id),
                self.cycle_id == patched(patch_view(f.take(i as int)), "cycle_id"@, opt_uuid_reader(), start.cycle_id),
                self.reward_type == patched(patch_view(f.take(i as int)), "reward_type"@, RewardType::json_reader(), start.reward_type),
                self.title@ == patched(patch_view(f.take(i as int)), "title"@, string_reader(), start.title@),
                opt_text(self.description) == patched(patch_view(f.take(i as int)), "description"@, opt_string_reader(), opt_text(start.description)),
                opt_decimal(self.amount) == patched(patch_view(f.take(i as int)), "amount"@, opt_decimal_reader(), opt_decimal(start.amount)),
                self.awarded_by == patched(patch_view(f.take(i as int)), "awarded_by"@, opt_uuid_reader(), start.awarded_by),
                self.awarded_at == patched(patch_view(f.take(i as int)), "awarded_at"@, date_reader(), start.awarded_at),
                self.payroll_component_id == patched(patch_view(f.take(i as int)), "payroll_component_id"@, opt_uuid_reader(), start.payroll_component_id),
            decreases fields.len() - i,
        {
            let key = fields[i].0.as_str();
            let value = fields[i].1.as_str();
            proof {
                reveal_strlit("employee_id");
                reveal_strlit("cycle_id");
                reveal_strlit("reward_type");
                reveal_strlit("title");
                reveal_strlit("description");
                reveal_strlit("amount");
                reveal_strlit("awarded_by");
                reveal_strlit("awarded_at");
                reveal_strlit("payroll_component_id");
                assert("employee_id"@.len() != "cycle_id"@.len());
                assert("employee_id"@[0] != "reward_type"@[0]);
                assert("employee_id"@.len() != "title"@.len());
                assert("employee_id"@[0] != "description"@[0]);
                assert("employee_id"@.len() != "amount"@.len());
                assert("employee_id"@.len() != "awarded_by"@.len());
                assert("employee_id"@.len() != "awarded_at"@.len());
                assert("employee_id"@.len() != "payroll_component_id"@.len());
                assert("cycle_id"@.len() != "reward_type"@.len());
                assert("cycle_id"@.len() != "title"@.len());
                assert("cycle_id"@.len() != "description"@.len());
                assert("cycle_id"@.len() != "amount"@.len());
                assert("cycle_id"@.len() != "awarded_by"@.len());
                assert("cycle_id"@.len() != "awarded_at"@.len());
                assert("cycle_id"@.len() != "payroll_component_id"@.len());
                assert("reward_type"@.len() != "title"@.len());
                assert("reward_type"@[0] != "description"@[0]);
                assert("reward_type"@.len() != "amount"@.len());
                assert("reward_type"@.len() != "awarded_by"@.len());
                assert("reward_type"@.len() != "awarded_at"@.len());
                assert("reward_type"@.len() != "payroll_component_id"@.len());
                assert("title"@.len() != "description"@.len());
                assert("title"@.len() != "amount"@.len());
                assert("title"@.len() != "awarded_by"@.len());
                assert("title"@.len() != "awarded_at"@.len());
                assert("title"@.len() != "payroll_component_id"@.len());
                assert("description"@.len() != "amount"@.len());
                assert("description"@.len() != "awarded_by"@.len());
                assert("description"@.len() != "awarded_at"@.len());
                assert("description"@.len() != "payroll_component_id"@.len());
                assert("amount"@.len() != "awarded_by"@.len());
                assert("amount"@.len() != "awarded_at"@.len());
                assert("amount"@.len() != "payroll_component_id"@.len());
                assert("awarded_by"@[8] != "awarded_at"@[8]);
                assert("awarded_by"@.len() != "payroll_component_id"@.len());
                assert("awarded_at"@.len() != "payroll_component_id"@.len());
                lemma_patched_step(f, i as int, "employee_id"@, uuid_reader(), start.employee_id);
                lemma_patched_step(f, i as int, "cycle_id"@, opt_uuid_reader(), start.cycle_id);
                lemma_patched_step(f, i as int, "reward_type"@, RewardType::json_reader(), start.reward_type);
                lemma_patched_step(f, i as int, "title"@, string_reader(), start.title@);
                lemma_patched_step(f, i as int, "description"@, opt_string_reader(), opt_text(start.description));
                lemma_patched_step(f, i as int, "amount"@, opt_decimal_reader(), opt_decimal(start.amount));
                lemma_patched_step(f, i as int, "awarded_by"@, opt_uuid_reader(), start.awarded_by);
                lemma_patched_step(f, i as int, "awarded_at"@, date_reader(), start.awarded_at);
                lemma_patched_step(f, i as int, "payroll_component_id"@, opt_uuid_reader(), start.payroll_component_id);
            }
            if text_eq(key, "employee_id") {
                match json_uuid(value) {
                    Some(v) => { self.employee_id = v; },
                    None => {},
                }
            } else if text_eq(key, "cycle_id") {
                match json_opt_uuid(value) {
                    Some(v) => { self.cycle_id = v; },
                    None => {},
                }
            } else if text_eq(key, "reward_type") {
                match RewardType::from_json(value) {
                    Some(v) => { self.reward_type = v; },
                    None => {},
                }
            } else if text_eq(key, "title") {
                match json_string(value) {
                    Some(v) => { self.title = v; },
                    None => {},
                }
            } else if text_eq(key, "description") {
                match json_opt_string(value) {
                    Some(v) => { self.description = v; },
                    None => {},
                }
            } else if text_eq(key, "amount") {
                match json_opt_decimal(value) {
                    Some(v) => { self.amount = v; },
                    None => {},
                }
            } else if text_eq(key, "awarded_by") {
                match json_opt_uuid(value) {
                    Some(v) => { self.awarded_by = v; },
                    None => {},
                }
            } else if text_eq(key, "awarded_at") {
                match json_date(value) {
                    Some(v) => { self.awarded_at = v; },
                    None => {},
                }
            } else if text_eq(key, "payroll_component_id") {
                match json_opt_uuid(value) {
                    Some(v) => { self.payroll_component_id = v; },
                    None => {},
                }
            }
            i = i + 1;
        }
        proof {
            lemma_patched_all::<u128>(f);
        }
    }

    /// The identifier as text (hyphenated lower case).
    pub fn entity_id_text(&self) -> (r: String)
        ensures
            r@ == uuid_text(self.id),
    {
        uuid_to_text(self.id)
    }

    /// Sets the identifier from text; a text that is not a UUID leaves it.
    pub fn set_entity_id(&mut self, id: &str)
        ensures
            *final(self) == (Reward {
                id: match uuid_parse(id@) { Some(v) => v, None => old(self).id },
                ..*old(self)
            }),
    {
        set_id_from_text(&mut self.id, id);
    }

    /// Records when this entity was created.
    pub fn set_created_at(&mut self, ts: Timestamp)
        ensures
            *final(self) == (Reward { metadata: AuditMetadata { created_at: Some(ts), ..old(self).metadata }, ..*old(self) }),
    {
        self.metadata.created_at = Some(ts);
    }

    /// Records when this entity was last updated.
    pub fn set_updated_at(&mut self, ts: Timestamp)
        ensures
            *final(self) == (Reward { metadata: AuditMetadata { updated_at: Some(ts), ..old(self).metadata }, ..*old(self) }),
    {
        self.metadata.updated_at = Some(ts);
    }

    /// Records (or clears) when this entity was soft deleted.
    pub fn set_deleted_at(&mut self, ts: Option<Timestamp>)
        ensures
            *final(self) == (Reward { metadata: AuditMetadata { deleted_at: ts, ..old(self).metadata }, ..*old(self) }),
    {
        self.metadata.deleted_at = ts;
    }

    /// The store's type hints for filtering and sorting: (column, type).
    pub fn column_types() -> (r: Vec<(String, String)>)
        ensures
            r@.map_values(|p: (String, String)| (p.0@, p.1@)) == seq![
                ("id"@, "uuid"@),
                ("employee_id"@, "uuid"@),
                ("cycle_id"@, "uuid"@),
                ("payroll_component_id"@, "uuid"@),
                ("reward_type"@, "reward_type"@),
            ],
    {
        let mut m: Vec<(String, String)> = Vec::new();
        m.push((String::from_str("id"), String::from_str("uuid")));
        m.push((String::from_str("employee_id"), String::from_str("uuid")));
        m.push((String::from_str("cycle_id"), String::from_str("uuid")));
        m.push((String::from_str("payroll_component_id"), String::from_str("uuid")));
        m.push((String::from_str("reward_type"), String::from_str("reward_type")));
        proof {
            assert(m@.map_values(|p: (String, String)| (p.0@, p.1@)) =~= seq![
                ("id"@, "uuid"@),
                ("employee_id"@, "uuid"@),
                ("cycle_id"@, "uuid"@),
                ("payroll_component_id"@, "uuid"@),
                ("reward_type"@, "reward_type"@),
            ]);
        }
        m
    }

    /// The text columns searched by the free-text filter.
    pub fn search_fields() -> (r: &'static [&'static str])
        ensures
            r@.len() == 1,
            r@[0]@ == "title"@,
    {
        &["title"]
    }
}

impl Entity for Reward {
    type Id = Uuid;

    fn entity_id(&self) -> (r: &Uuid)
        ensures
            *r == self.id,
    {
        &self.id
    }

    fn entity_type() -> (r: &'static str)
        ensures
            r@ == "Reward"@,
    {
        "Reward"
    }
}

/// Builder for Reward entity
///
/// Provides a fluent API for constructing Reward instances.
/// System fields (id, metadata, timestamps) are auto-initialized.
#[derive(Debug, Clone)]
pub struct RewardBuilder {
    employee_id: Option<Uuid>,
    cycle_id: Option<Uuid>,
    reward_type: Option<RewardType>,
    title: Option<String>,
    description: Option<String>,
    amount: Option<Decimal>,
    awarded_by: Option<Uuid>,
    awarded_at: Option<Date>,
    payroll_component_id: Option<Uuid>,
}

impl RewardBuilder {
    /// The `employee_id` set so far, if any.
    pub closed spec fn spec_employee_id(self) -> Option<Uuid> { self.employee_id }
    /// The `cycle_id` set so far, if any.
    pub closed spec fn spec_cycle_id(self) -> Option<Uuid> { self.cycle_id }
    /// The `reward_type` set so far, if any.
    pub closed spec fn spec_reward_type(self) -> Option<RewardType> { self.reward_type }
    /// The `title` set so far, if any.
    pub closed spec fn spec_title(self) -> Option<String> { self.title }
    /// The `description` set so far, if any.
    pub closed spec fn spec_description(self) -> Option<String> { self.description }
    /// The `amount` set so far, if any.
    pub closed spec fn spec_amount(self) -> Option<Decimal> { self.amount }
    /// The `awarded_by` set so far, if any.
    pub closed spec fn spec_awarded_by(self) -> Option<Uuid> { self.awarded_by }
    /// The `awarded_at` set so far, if any.
    pub closed spec fn spec_awarded_at(self) -> Option<Date> { self.awarded_at }
    /// The `payroll_component_id` set so far, if any.
    pub closed spec fn spec_payroll_component_id(self) -> Option<Uuid> { self.payroll_component_id }

    /// Set the employee_id field (required)
    pub fn employee_id(self, value: Uuid) -> (r: RewardBuilder)
        ensures
            r.spec_employee_id() == Some(value),
            r.spec_cycle_id() == self.spec_cycle_id(),
            r.spec_reward_type() == self.spec_reward_type(),
            r.spec_title() == self.spec_title(),
            r.spec_description() == self.spec_description(),
            r.spec_amount() == self.spec_amount(),
            r.spec_awarded_by() == self.spec_awarded_by(),
            r.spec_awarded_at() == self.spec_awarded_at(),
            r.spec_payroll_component_id() == self.spec_payroll_component_id(),
    {
        let mut b = self;
        b.employee_id = Some(value);
        b
    }

    /// Set the cycle_id field (optional)
    pub fn cycle_id(self, value: Uuid) -> (r: RewardBuilder)
        ensures
            r.spec_cycle_id() == Some(value),
            r.spec_employee_id() == self.spec_employee_id(),
            r.spec_reward_type() == self.spec_reward_type(),
            r.spec_title() == self.spec_title(),
            r.spec_description() == self.spec_description(),
            r.spec_amount() == self.spec_amount(),
            r.spec_awarded_by() == self.spec_awarded_by(),
            r.spec_awarded_at() == self.spec_awarded_at(),
            r.spec_payroll_component_id() == self.spec_payroll_component_id(),
    {
        let mut b = self;
        b.cycle_id = Some(value);
        b
    }

    /// Set the reward_type field (default: `RewardType::default()`)
    pub fn reward_type(self, value: RewardType) -> (r: RewardBuilder)
        ensures
            r.spec_reward_type() == Some(value),
            r.spec_employee_id() == self.spec_employee_id(),
            r.spec_cycle_id() == self.spec_cycle_id(),
            r.spec_title() == self.spec_title(),
            r.spec_description() == self.spec_description(),
            r.spec_amount() == self.spec_amount(),
            r.spec_awarded_by() == self.spec_awarded_by(),
            r.spec_awarded_at() == self.spec_awarded_at(),
            r.spec_payroll_component_id() == self.spec_payroll_component_id(),
    {
        let mut b = self;
        b.reward_type = Some(value);
        b
    }

    /// Set the title field (required)
    pub fn title(self, value: String) -> (r: RewardBuilder)
        ensures
            r.spec_title() == Some(value),
            r.spec_employee_id() == self.spec_employee_id(),
            r.spec_cycle_id() == self.spec_cycle_id(),
            r.spec_reward_type() == self.spec_reward_type(),
            r.spec_description() == self.spec_description(),
            r.spec_amount() == self.spec_amount(),
            r.spec_awarded_by() == self.spec_awarded_by(),
            r.spec_awarded_at() == self.spec_awarded_at(),
            r.spec_payroll_component_id() == self.spec_payroll_component_id(),
    {
        let mut b = self;
        b.title = Some(value);
        b
    }

    /// Set the description field (optional)
    pub fn description(self, value: String) -> (r: RewardBuilder)
        ensures
            r.spec_description() == Some(value),
            r.spec_employee_id() == self.spec_employee_id(),
            r.spec_cycle_id() == self.spec_cycle_id(),
            r.spec_reward_type() == self.spec_reward_type(),
            r.spec_title() == self.spec_title(),
            r.spec_amount() == self.spec_amount(),
            r.spec_awarded_by() == self.spec_awarded_by(),
            r.spec_awarded_at() == self.spec_awarded_at(),
            r.spec_payroll_component_id() == self.spec_payroll_component_id(),
    {
        let mut b = self;
        b.description = Some(value);
        b
    }

    /// Set the amount field (optional)
    pub fn amount(self, value: Decimal) -> (r: RewardBuilder)
        ensures
            r.spec_amount() == Some(value),
            r.spec_employee_id() == self.spec_employee_id(),
            r.spec_cycle_id() == self.spec_cycle_id(),
            r.spec_reward_type() == self.spec_reward_type(),
            r.spec_title() == self.spec_title(),
            r.spec_description() == self.spec_description(),
            r.spec_awarded_by() == self.spec_awarded_by(),
            r.spec_awarded_at() == self.spec_awarded_at(),
            r.spec_payroll_component_id() == self.spec_payroll_component_id(),
    {
        let mut b = self;
        b.amount = Some(value);
        b
    }

    /// Set the awarded_by field (optional)
    pub fn awarded_by(self, value: Uuid) -> (r: RewardBuilder)
        ensures
            r.spec_awarded_by() == Some(value),
            r.spec_employee_id() == self.spec_employee_id(),
            r.spec_cycle_id() == self.spec_cycle_id(),
            r.spec_reward_type() == self.spec_reward_type(),
            r.spec_title() == self.spec_title(),
            r.spec_description() == self.spec_description(),
            r.spec_amount() == self.spec_amount(),
            r.spec_awarded_at() == self.spec_awarded_at(),
            r.spec_payroll_component_id() == self.spec_payroll_component_id(),
    {
        let mut b = self;
        b.awarded_by = Some(value);
        b
    }

    /// Set the awarded_at field (required)
    pub fn awarded_at(self, value: Date) -> (r: RewardBuilder)
        ensures
            r.spec_awarded_at() == Some(value),
            r.spec_employee_id() == self.spec_employee_id(),
            r.spec_cycle_id() == self.spec_cycle_id(),
            r.spec_reward_type() == self.spec_reward_type(),
            r.spec_title() == self.spec_title(),
            r.spec_description() == self.spec_description(),
            r.spec_amount() == self.spec_amount(),
            r.spec_awarded_by() == self.spec_awarded_by(),
            r.spec_payroll_component_id() == self.spec_payroll_component_id(),
    {
        let mut b = self;
        b.awarded_at = Some(value);
        b
    }

    /// Set the payroll_component_id field (optional)
    pub fn payroll_component_id(self, value: Uuid) -> (r: RewardBuilder)
        ensures
            r.spec_payroll_component_id() == Some(value),
            r.spec_employee_id() == self.spec_employee_id(),
            r.spec_cycle_id() == self.spec_cycle_id(),
            r.spec_reward_type() == self.spec_reward_type(),
            r.spec_title() == self.spec_title(),
            r.spec_description() == self.spec_description(),
            r.spec_amount() == self.spec_amount(),
            r.spec_awarded_by() == self.spec_awarded_by(),
            r.spec_awarded_at() == self.spec_awarded_at(),
    {
        let mut b = self;
        b.payroll_component_id = Some(value);
        b
    }

    /// The text of the first required field that is missing, if any.
    pub open spec fn missing(self) -> Option<Seq<char>> {
        if self.spec_employee_id() is None {
            Some("employee_id is required"@)
        } else if self.spec_title() is None {
            Some("title is required"@)
        } else if self.spec_awarded_at() is None {
            Some("awarded_at is required"@)
        } else {
            None
        }
    }

    /// The entity this builder makes under `id`.
    pub open spec fn built(self, id: Uuid) -> Reward {
        Reward {
            id,
            employee_id: self.spec_employee_id().unwrap(),
            cycle_id: self.spec_cycle_id(),
            reward_type: match self.spec_reward_type() { Some(v) => v, None => RewardType::Recognition },
            title: self.spec_title().unwrap(),
            description: self.spec_description(),
            amount: self.spec_amount(),
            awarded_by: self.spec_awarded_by(),
            awarded_at: self.spec_awarded_at().unwrap(),
            payroll_component_id: self.spec_payroll_component_id(),
            metadata: AuditMetadata::empty(),
        }
    }

    /// Build the Reward entity under a fresh random identifier.
    ///
    /// Returns Err if any required field without a default is missing.
    pub fn build(self) -> (r: Result<Reward, String>)
        ensures
            match self.missing() {
                Some(msg) => r matches Err(m) && m@ == msg,
                None => r matches Ok(x) && x == self.built(x.id) && is_random_uuid(x.id),
            },
    {
        let employee_id = match self.employee_id {
            Some(v) => v,
            None => return Err(String::from_str("employee_id is required")),
        };
        let title = match self.title {
            Some(v) => v,
            None => return Err(String::from_str("title is required")),
        };
        let awarded_at = match self.awarded_at {
            Some(v) => v,
            None => return Err(String::from_str("awarded_at is required")),
        };
        Ok(Reward {
            id: generate_uuid(),
            employee_id,
            cycle_id: self.cycle_id,
            reward_type: match self.reward_type {
                Some(v) => v,
                None => RewardType::default(),
            },
            title,
            description: self.description,
            amount: self.amount,
            awarded_by: self.awarded_by,
            awarded_at,
            payroll_component_id: self.payroll_component_id,
            metadata: AuditMetadata::default(),
        })
    }
}

impl Default for RewardBuilder {
    fn default() -> (r: RewardBuilder)
        ensures
            r.spec_employee_id() is None,
            r.spec_cycle_id() is None,
            r.spec_reward_type() is None,
            r.spec_title() is None,
            r.spec_description() is None,
            r.spec_amount() is None,
            r.spec_awarded_by() is None,
            r.spec_awarded_at() is None,
            r.spec_payroll_component_id() is None,
    {
        RewardBuilder {
            employee_id: None,
            cycle_id: None,
            reward_type: None,
            title: None,
            description: None,
            amount: None,
            awarded_by: None,
            awarded_at: None,
            payroll_component_id: None,
        }
    }
}

} // verus!
