//! Reading one JSON value (given as its JSON text) into the type of an entity
//! field, with `serde_json::from_str`; and the fold that says what a patch of
//! such values does to one field.

use vstd::prelude::*;
use chrono::Datelike;
use crate::values::{Date, Decimal, Timestamp, Uuid};

verus! {

/// What `serde_json::from_str::<uuid::Uuid>` gives for a JSON text.
pub uninterp spec fn json_uuid_value(text: Seq<char>) -> Option<u128>;

/// What `serde_json::from_str::<Option<uuid::Uuid>>` gives for a JSON text.
pub uninterp spec fn json_opt_uuid_value(text: Seq<char>) -> Option<Option<u128>>;

/// What `serde_json::from_str::<String>` gives for a JSON text.
pub uninterp spec fn json_string_value(text: Seq<char>) -> Option<Seq<char>>;

/// What `serde_json::from_str::<Option<String>>` gives for a JSON text.
pub uninterp spec fn json_opt_string_value(text: Seq<char>) -> Option<Option<Seq<char>>>;

/// What `serde_json::from_str::<bool>` gives for a JSON text.
pub uninterp spec fn json_bool_value(text: Seq<char>) -> Option<bool>;

/// What `serde_json::from_str::<i32>` gives for a JSON text.
pub uninterp spec fn json_i32_value(text: Seq<char>) -> Option<i32>;

/// What `serde_json::from_str::<chrono::NaiveDate>` gives for a JSON text:
/// (year, month, day).
pub uninterp spec fn json_date_value(text: Seq<char>) -> Option<(i32, u32, u32)>;

/// What `serde_json::from_str::<Option<rust_decimal::Decimal>>` gives for a
/// JSON text: (mantissa, scale).
pub uninterp spec fn json_opt_decimal_value(text: Seq<char>) -> Option<Option<(i128, u32)>>;

/// What `serde_json::from_str::<Option<chrono::DateTime<chrono::Utc>>>` gives
/// for a JSON text: (seconds since the epoch, nanoseconds).
pub uninterp spec fn json_opt_timestamp_value(text: Seq<char>) -> Option<Option<(i64, u32)>>;

/// Reads a UUID with `serde_json::from_str`; the result is named (`None`
/// where serde_json reports an error).
#[verifier::external_body]
pub(crate) fn json_uuid(text: &str) -> (r: Option<Uuid>)
    ensures
        r == json_uuid_value(text@),
{
    match serde_json::from_str::<uuid::Uuid>(text) {
        Ok(u) => Some(u.as_u128()),
        Err(_) => None,
    }
}

/// Reads an optional UUID (`null` is `None`) with `serde_json::from_str`; the
/// result is named.
#[verifier::external_body]
pub(crate) fn json_opt_uuid(text: &str) -> (r: Option<Option<Uuid>>)
    ensures
        r == json_opt_uuid_value(text@),
{
    match serde_json::from_str::<Option<uuid::Uuid>>(text) {
        Ok(Some(u)) => Some(Some(u.as_u128())),
        Ok(None) => Some(None),
        Err(_) => None,
    }
}

/// Reads a string with `serde_json::from_str`; the result is named.
#[verifier::external_body]
pub(crate) fn json_string(text: &str) -> (r: Option<String>)
    ensures
        match json_string_value(text@) {
            Some(v) => r matches Some(x) && x@ == v,
            None => r is None,
        },
{
    match serde_json::from_str::<String>(text) {
        Ok(x) => Some(x),
        Err(_) => None,
    }
}

/// Reads an optional string with `serde_json::from_str`; the result is named.
#[verifier::external_body]
pub(crate) fn json_opt_string(text: &str) -> (r: Option<Option<String>>)
    ensures
        match json_opt_string_value(text@) {
            Some(Some(v)) => r matches Some(Some(x)) && x@ == v,
            Some(None) => r == Some(None::<String>),
            None => r is None,
        },
{
    match serde_json::from_str::<Option<String>>(text) {
        Ok(x) => Some(x),
        Err(_) => None,
    }
}

/// Reads a boolean with `serde_json::from_str`; the result is named.
#[verifier::external_body]
pub(crate) fn json_bool(text: &str) -> (r: Option<bool>)
    ensures
        r == json_bool_value(text@),
{
    serde_json::from_str::<bool>(text).ok()
}

/// Reads a 32-bit integer with `serde_json::from_str`; the result is named.
#[verifier::external_body]
pub(crate) fn json_i32(text: &str) -> (r: Option<i32>)
    ensures
        r == json_i32_value(text@),
{
    serde_json::from_str::<i32>(text).ok()
}

/// The date of a (year, month, day) triple.
pub open spec fn date_of(t: (i32, u32, u32)) -> Date {
    Date { year: t.0, month: t.1, day: t.2 }
}

/// Reads a date with `serde_json::from_str` into `chrono::NaiveDate`; the
/// result is named.
#[verifier::external_body]
pub(crate) fn json_date(text: &str) -> (r: Option<Date>)
    ensures
        match json_date_value(text@) {
            Some(t) => r == Some(date_of(t)),
            None => r is None,
        },
{
    match serde_json::from_str::<chrono::NaiveDate>(text) {
        Ok(d) => Some(Date { year: d.year(), month: d.month(), day: d.day() }),
        Err(_) => None,
    }
}

/// Reads an optional decimal with `serde_json::from_str` into
/// `rust_decimal::Decimal`; the result is named.
#[verifier::external_body]
pub(crate) fn json_opt_decimal(text: &str) -> (r: Option<Option<Decimal>>)
    ensures
        match json_opt_decimal_value(text@) {
            Some(Some(v)) => r matches Some(Some(d)) && d@ == v,
            Some(None) => r == Some(None::<Decimal>),
            None => r is None,
        },
{
    match serde_json::from_str::<Option<rust_decimal::Decimal>>(text) {
        Ok(Some(d)) => Some(Some(Decimal { mantissa: d.mantissa(), scale: d.scale() })),
        Ok(None) => Some(None),
        Err(_) => None,
    }
}

/// The instant of a (seconds, nanoseconds) pair.
pub open spec fn timestamp_of(t: (i64, u32)) -> Timestamp {
    Timestamp { secs: t.0, nanos: t.1 }
}

/// Reads an optional instant with `serde_json::from_str` into
/// `chrono::DateTime<chrono::Utc>`; the result is named.
#[verifier::external_body]
pub(crate) fn json_opt_timestamp(text: &str) -> (r: Option<Option<Timestamp>>)
    ensures
        match json_opt_timestamp_value(text@) {
            Some(Some(t)) => r == Some(Some(timestamp_of(t))),
            Some(None) => r == Some(None::<Timestamp>),
            None => r is None,
        },
{
    match serde_json::from_str::<Option<chrono::DateTime<chrono::Utc>>>(text) {
        Ok(Some(t)) => Some(Some(Timestamp { secs: t.timestamp(), nanos: t.timestamp_subsec_nanos() })),
        Ok(None) => Some(None),
        Err(_) => None,
    }
}

/// The (key, JSON text) pairs of a patch, as character sequences.
pub open spec fn patch_view(fields: Seq<(String, String)>) -> Seq<(Seq<char>, Seq<char>)> {
    fields.map_values(|p: (String, String)| (p.0@, p.1@))
}

/// The value a field holds after a patch: every entry whose key is the
/// field's name and whose value reads as the field's type overwrites it, in
/// order; other entries leave it as it was.
pub open spec fn patched<T>(fields: Seq<(Seq<char>, Seq<char>)>, key: Seq<char>, read: spec_fn(Seq<char>) -> Option<T>, current: T) -> T
    decreases fields.len(),
{
    if fields.len() == 0 {
        current
    } else {
        let before = patched(fields.drop_last(), key, read, current);
        if fields.last().0 == key && read(fields.last().1) is Some {
            read(fields.last().1).unwrap()
        } else {
            before
        }
    }
}

/// One step of a patch: the entry at `i` overwrites the field when its key is
/// the field's name and its value reads.
pub proof fn lemma_patched_step<T>(f: Seq<(String, String)>, i: int, key: Seq<char>, read: spec_fn(Seq<char>) -> Option<T>, current: T)
    requires
        0 <= i < f.len(),
    ensures
        patched(patch_view(f.take(i + 1)), key, read, current) == if f[i].0@ == key && read(f[i].1@) is Some {
            read(f[i].1@).unwrap()
        } else {
            patched(patch_view(f.take(i)), key, read, current)
        },
{
    assert(patch_view(f.take(i + 1)).drop_last() =~= patch_view(f.take(i)));
    assert(patch_view(f.take(i + 1)).last() == (f[i].0@, f[i].1@));
}

/// A patch read to its end.
pub proof fn lemma_patched_all<T>(f: Seq<(String, String)>)
    ensures
        patch_view(f.take(f.len() as int)) == patch_view(f),
{
    assert(f.take(f.len() as int) =~= f);
}

/// An empty prefix of a patch changes nothing.
pub proof fn lemma_patched_none<T>(f: Seq<(String, String)>, key: Seq<char>, read: spec_fn(Seq<char>) -> Option<T>, current: T)
    ensures
        patched(patch_view(f.take(0)), key, read, current) == current,
{
    assert(patch_view(f.take(0)) =~= Seq::<(Seq<char>, Seq<char>)>::empty());
}

/// Reads a UUID.
pub open spec fn uuid_reader() -> spec_fn(Seq<char>) -> Option<u128> {
    |t: Seq<char>| json_uuid_value(t)
}

/// Reads an optional UUID.
pub open spec fn opt_uuid_reader() -> spec_fn(Seq<char>) -> Option<Option<u128>> {
    |t: Seq<char>| json_opt_uuid_value(t)
}

/// Reads a string.
pub open spec fn string_reader() -> spec_fn(Seq<char>) -> Option<Seq<char>> {
    |t: Seq<char>| json_string_value(t)
}

/// Reads an optional string.
pub open spec fn opt_string_reader() -> spec_fn(Seq<char>) -> Option<Option<Seq<char>>> {
    |t: Seq<char>| json_opt_string_value(t)
}

/// Reads a boolean.
pub open spec fn bool_reader() -> spec_fn(Seq<char>) -> Option<bool> {
    |t: Seq<char>| json_bool_value(t)
}

/// Reads a 32-bit integer.
pub open spec fn i32_reader() -> spec_fn(Seq<char>) -> Option<i32> {
    |t: Seq<char>| json_i32_value(t)
}

/// Reads a date.
pub open spec fn date_reader() -> spec_fn(Seq<char>) -> Option<Date> {
    |t: Seq<char>| match json_date_value(t) {
        Some(d) => Some(date_of(d)),
        None => None,
    }
}

/// Reads an optional decimal, as (mantissa, scale).
pub open spec fn opt_decimal_reader() -> spec_fn(Seq<char>) -> Option<Option<(i128, u32)>> {
    |t: Seq<char>| json_opt_decimal_value(t)
}

/// Reads an optional instant.
pub open spec fn opt_timestamp_reader() -> spec_fn(Seq<char>) -> Option<Option<Timestamp>> {
    |t: Seq<char>| match json_opt_timestamp_value(t) {
        Some(Some(x)) => Some(Some(timestamp_of(x))),
        Some(None) => Some(None),
        None => None,
    }
}

/// An optional text by its view.
pub open spec fn opt_text(s: Option<String>) -> Option<Seq<char>> {
    match s {
        Some(t) => Some(t@),
        None => None,
    }
}

/// An optional decimal by its view.
pub open spec fn opt_decimal(d: Option<Decimal>) -> Option<(i128, u32)> {
    match d {
        Some(x) => Some(x@),
        None => None,
    }
}

} // verus!
