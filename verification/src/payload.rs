//! Whole payloads: reading a record from a JSON value and writing it back.

use crate::error::{DecodeError, DecodeErrorView};
use crate::fields::outcome;
use crate::json::{lemma_object_view, member, Json, JsonView};
use crate::record::{record_json, write_record, Record};
use vstd::prelude::*;

verus! {

/// The record that a JSON value holds: the value must be an object, and its
/// members must hold the record.
pub open spec fn payload_of<R: Record>(json: JsonView) -> Result<R::V, DecodeErrorView> {
    match json {
        JsonView::Object(members) => R::from_members(members),
        _ => Err(DecodeErrorView::NotAnObject),
    }
}

/// Reads a record from a JSON value.
pub fn from_json<R: Record>(json: &Json) -> (decoded: Result<R, DecodeError>)
    ensures
        outcome(decoded) == payload_of::<R>(json@),
{
    match json {
        Json::Object(members) => {
            proof {
                lemma_object_view(*members);
            }
            R::decode(members)
        },
        _ => Err(DecodeError::NotAnObject),
    }
}

/// Writes a record as a JSON object with one member for each field.
pub fn to_json<R: Record>(record: &R) -> (json: Json)
    ensures
        json@ == record_json::<R>(record.deep_view()),
{
    write_record::<R>(record)
}

/// Writing a record and reading it again gives the record back, whatever the
/// record holds.
pub proof fn lemma_round_trip<R: Record>(record: R::V)
    ensures
        payload_of::<R>(record_json::<R>(record)) == Ok::<R::V, DecodeErrorView>(record),
{
    R::lemma_read_back(record);
}

/// A payload that lacks a field that the record needs is never read as a
/// record, and neither is a value that is no object at all.
pub proof fn lemma_incomplete_payload<R: Record>(json: JsonView, name: Seq<char>)
    requires
        R::needed().contains(name),
        json matches JsonView::Object(members) ==> member(members, name) is None,
    ensures
        payload_of::<R>(json) is Err,
{
    if let JsonView::Object(members) = json {
        R::lemma_needed(members, name);
    }
}

} // verus!
