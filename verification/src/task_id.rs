//! Task identifiers: freshly generated 128-bit ids and their wire form.
//!
//! A task id is carried through the broker as a plain `u128`; the uuid crate
//! supplies generation, the canonical hyphenated text form, and parsing of
//! that form out of the submit header.

use vstd::prelude::*;

verus! {

/// The hyphenated text form of a 128-bit id, as `uuid` renders it.
pub uninterp spec fn uuid_hyphenated(id: u128) -> Seq<char>;

/// What `uuid` makes of a candidate id string: the parsed id, or `None`.
pub uninterp spec fn uuid_parse(s: Seq<char>) -> Option<u128>;

/// Relies on `uuid::Uuid::new_v4` for a freshly generated random id.
/// Nothing is promised of the value: every caller must cope with any id.
#[verifier::external_body]
pub(crate) fn generate_task_id() -> u128 {
    uuid::Uuid::new_v4().as_u128()
}

/// Relies on `uuid::fmt::Hyphenated`: the id rendered as the canonical
/// 36-character hyphenated string, a function of the id alone.
#[verifier::external_body]
pub(crate) fn task_id_to_string(id: u128) -> (r: String)
    ensures
        r@ == uuid_hyphenated(id),
        r@.len() == 36,
{
    uuid::Uuid::from_u128(id).hyphenated().to_string()
}

/// Relies on `uuid::Uuid::parse_str`, which accepts in particular the
/// hyphenated form that `task_id_to_string` produces and inverts it.
#[verifier::external_body]
pub(crate) fn parse_task_id(s: &str) -> (r: Option<u128>)
    ensures
        r == uuid_parse(s@),
        forall|id: u128| s@ == #[trigger] uuid_hyphenated(id) ==> r == Some(id),
{
    match uuid::Uuid::parse_str(s) {
        Ok(u) => Some(u.as_u128()),
        Err(_) => None,
    }
}

} // verus!
