//! What every entity shares: its audit metadata, the `Entity` trait, and the
//! error of an identifier that does not parse.

use vstd::prelude::*;
use vstd::string::*;
use crate::values::{Timestamp, Uuid, parse_uuid, uuid_parse, uuid_text, uuid_to_text};

verus! {

/// Who created, updated and soft-deleted a row, and when.
#[derive(Debug, Clone, Copy, PartialEq, Eq, Structural)]
pub struct AuditMetadata {
    pub created_at: Option<Timestamp>,
    pub updated_at: Option<Timestamp>,
    pub deleted_at: Option<Timestamp>,
    pub created_by: Option<Uuid>,
    pub updated_by: Option<Uuid>,
    pub deleted_by: Option<Uuid>,
}

impl AuditMetadata {
    /// Metadata with nothing recorded.
    pub open spec fn empty() -> AuditMetadata {
        AuditMetadata {
            created_at: None,
            updated_at: None,
            deleted_at: None,
            created_by: None,
            updated_by: None,
            deleted_by: None,
        }
    }
}

impl Default for AuditMetadata {
    fn default() -> (r: AuditMetadata)
        ensures
            r == AuditMetadata::empty(),
    {
        AuditMetadata {
            created_at: None,
            updated_at: None,
            deleted_at: None,
            created_by: None,
            updated_by: None,
            deleted_by: None,
        }
    }
}

/// A stored entity: its identifier and the name of its kind.
pub trait Entity {
    type Id;

    fn entity_id(&self) -> &Self::Id;

    fn entity_type() -> &'static str;
}

/// A text that is not a UUID.
#[derive(Debug)]
pub struct InvalidId {
    /// The text that did not parse.
    pub text: String,
}

/// The text of an identifier: its hyphenated lower-case form.
pub fn id_text(id: Uuid) -> (r: String)
    ensures
        r@ == uuid_text(id),
{
    uuid_to_text(id)
}

/// Parses a UUID; the error quotes the text.
pub fn parse_id(s: &str) -> (r: Result<Uuid, InvalidId>)
    ensures
        match uuid_parse(s@) {
            Some(v) => r == Ok::<Uuid, InvalidId>(v),
            None => r matches Err(e) && e.text@ == s@,
        },
        forall|v: u128| s@ == uuid_text(v) ==> r == Ok::<Uuid, InvalidId>(v),
{
    match parse_uuid(s) {
        Ok(v) => Ok(v),
        Err(_) => Err(InvalidId { text: String::from_str(s) }),
    }
}

/// Sets `*id` to the UUID that `s` holds; leaves it when `s` is not one.
pub fn set_id_from_text(id: &mut Uuid, s: &str)
    ensures
        *final(id) == match uuid_parse(s@) {
            Some(v) => v,
            None => *old(id),
        },
{
    match parse_id(s) {
        Ok(v) => { *id = v; },
        Err(_) => {},
    }
}

} // verus!
