//! Records: the types that are read from and written to JSON objects.

use crate::error::{DecodeError, DecodeErrorView};
use crate::fields::outcome;
use crate::json::{
    find, items_view, lemma_array_view, lemma_object_view, member, members_view, Json, JsonView,
};
use vstd::prelude::*;
use vstd::string::*;

verus! {

/// A type whose values are read from the members of a JSON object and
/// written back to them, field by field.
pub trait Record: DeepView + Sized {
    /// The names of the fields without which no record can be read.
    spec fn needed() -> Set<Seq<char>>;

    /// The record that the members of an object hold, or the first reason,
    /// in the order of the record's fields, why they hold none.
    spec fn from_members(members: Seq<(Seq<char>, JsonView)>) -> Result<Self::V, DecodeErrorView>;

    /// The members that write a record: one for each field, in the order of
    /// the record's fields, with `null` for an optional field that is empty.
    spec fn to_members(record: Self::V) -> Seq<(Seq<char>, JsonView)>;

    /// Reads a record from the members of an object.
    fn decode(members: &Vec<(String, Json)>) -> (decoded: Result<Self, DecodeError>)
        ensures
            outcome(decoded) == Self::from_members(members_view(members@)),
    ;

    /// Writes this record as the members of an object.
    fn encode(&self) -> (members: Vec<(String, Json)>)
        ensures
            members_view(members@) == Self::to_members(self.deep_view()),
    ;

    /// Reading what was written gives the record back.
    proof fn lemma_read_back(record: Self::V)
        ensures
            Self::from_members(Self::to_members(record)) == Ok::<Self::V, DecodeErrorView>(record),
    ;

    /// Members that lack a field that the record needs hold no record.
    proof fn lemma_needed(members: Seq<(Seq<char>, JsonView)>, name: Seq<char>)
        ensures
            Self::needed().contains(name) && member(members, name) is None
                ==> Self::from_members(members) is Err,
    ;
}

/// The record that `json` holds where it is the value of the field `name`:
/// it must be an object.
pub open spec fn as_record<R: Record>(json: JsonView, name: Seq<char>) -> Result<
    R::V,
    DecodeErrorView,
> {
    match json {
        JsonView::Object(members) => R::from_members(members),
        _ => Err(DecodeErrorView::WrongType(name)),
    }
}

/// What a field that must hold a record yields.
pub open spec fn required_record<R: Record>(
    members: Seq<(Seq<char>, JsonView)>,
    name: Seq<char>,
) -> Result<R::V, DecodeErrorView> {
    match member(members, name) {
        None => Err(DecodeErrorView::Missing(name)),
        Some(json) => as_record::<R>(json, name),
    }
}

/// What a field that may be absent, and otherwise holds a record, yields.
pub open spec fn optional_record<R: Record>(
    members: Seq<(Seq<char>, JsonView)>,
    name: Seq<char>,
) -> Result<Option<R::V>, DecodeErrorView> {
    match member(members, name) {
        None => Ok(None),
        Some(JsonView::Null) => Ok(None),
        Some(json) => match as_record::<R>(json, name) {
            Ok(record) => Ok(Some(record)),
            Err(error) => Err(error),
        },
    }
}

/// Whether `i` is the position of the first item of `items` that holds no
/// record.
pub open spec fn is_first_failure<R: Record>(items: Seq<JsonView>, name: Seq<char>, i: int) -> bool {
    &&& 0 <= i < items.len()
    &&& as_record::<R>(items[i], name) is Err
    &&& forall|j: int| 0 <= j < i ==> (#[trigger] as_record::<R>(items[j], name)) is Ok
}

/// The records that the items of an array hold, in their order, or the reason
/// why the first item that holds none does not.
pub open spec fn records_of<R: Record>(items: Seq<JsonView>, name: Seq<char>) -> Result<
    Seq<R::V>,
    DecodeErrorView,
> {
    if exists|i: int| is_first_failure::<R>(items, name, i) {
        let i = choose|i: int| is_first_failure::<R>(items, name, i);
        Err(as_record::<R>(items[i], name)->Err_0)
    } else {
        Ok(Seq::new(items.len(), |i: int| as_record::<R>(items[i], name)->Ok_0))
    }
}

/// What a field that must hold an array of records yields.
pub open spec fn required_records<R: Record>(
    members: Seq<(Seq<char>, JsonView)>,
    name: Seq<char>,
) -> Result<Seq<R::V>, DecodeErrorView> {
    match member(members, name) {
        None => Err(DecodeErrorView::Missing(name)),
        Some(JsonView::Array(items)) => records_of::<R>(items, name),
        Some(_) => Err(DecodeErrorView::WrongType(name)),
    }
}

/// The object that writes a record.
pub open spec fn record_json<R: Record>(record: R::V) -> JsonView {
    JsonView::Object(R::to_members(record))
}

/// The value that writes an optional record.
pub open spec fn optional_record_json<R: Record>(record: Option<R::V>) -> JsonView {
    match record {
        Some(record) => record_json::<R>(record),
        None => JsonView::Null,
    }
}

/// The array that writes a sequence of records.
pub open spec fn records_json<R: Record>(records: Seq<R::V>) -> JsonView {
    JsonView::Array(Seq::new(records.len(), |i: int| record_json::<R>(records[i])))
}

/// An array in which every item holds a record yields those records.
pub proof fn lemma_records_all<R: Record>(
    items: Seq<JsonView>,
    name: Seq<char>,
    records: Seq<R::V>,
)
    requires
        items.len() == records.len(),
        forall|i: int|
            0 <= i < items.len() ==> #[trigger] as_record::<R>(items[i], name) == Ok::<
                R::V,
                DecodeErrorView,
            >(records[i]),
    ensures
        records_of::<R>(items, name) == Ok::<Seq<R::V>, DecodeErrorView>(records),
{
    assert forall|i: int| !is_first_failure::<R>(items, name, i) by {
        if 0 <= i < items.len() {
            assert(as_record::<R>(items[i], name) is Ok);
        }
    }
    assert(Seq::new(items.len(), |i: int| as_record::<R>(items[i], name)->Ok_0) =~= records);
}

/// An array whose first item without a record is at `i` yields the reason
/// why that item holds none.
pub proof fn lemma_records_fail<R: Record>(items: Seq<JsonView>, name: Seq<char>, i: int)
    requires
        is_first_failure::<R>(items, name, i),
    ensures
        records_of::<R>(items, name) == Err::<Seq<R::V>, DecodeErrorView>(
            as_record::<R>(items[i], name)->Err_0,
        ),
{
    let k = choose|k: int| is_first_failure::<R>(items, name, k);
    if k < i {
        assert(as_record::<R>(items[k], name) is Ok);
    }
    if i < k {
        assert(as_record::<R>(items[i], name) is Ok);
    }
}

/// Reading the array that writes a sequence of records gives them back.
pub proof fn lemma_records_read_back<R: Record>(records: Seq<R::V>, name: Seq<char>)
    ensures
        records_of::<R>(records_json::<R>(records)->Array_0, name) == Ok::<
            Seq<R::V>,
            DecodeErrorView,
        >(records),
{
    let items = records_json::<R>(records)->Array_0;
    assert forall|i: int| 0 <= i < items.len() implies #[trigger] as_record::<R>(items[i], name)
        == Ok::<R::V, DecodeErrorView>(records[i]) by {
        R::lemma_read_back(records[i]);
    }
    lemma_records_all::<R>(items, name, records);
}

/// Reads the record that `json` holds as the value of the field `name`.
fn read_as_record<R: Record>(json: &Json, name: &str) -> (value: Result<R, DecodeError>)
    ensures
        outcome(value) == as_record::<R>(json@, name@),
{
    match json {
        Json::Object(members) => {
            proof {
                lemma_object_view(*members);
            }
            R::decode(members)
        },
        _ => Err(DecodeError::WrongType(String::from_str(name))),
    }
}

/// Reads a required field that holds a record.
pub fn read_record<R: Record>(members: &Vec<(String, Json)>, name: &str) -> (value: Result<
    R,
    DecodeError,
>)
    ensures
        outcome(value) == required_record::<R>(members_view(members@), name@),
{
    match find(members, name) {
        None => Err(DecodeError::Missing(String::from_str(name))),
        Some(json) => read_as_record::<R>(json, name),
    }
}

/// Reads an optional field that holds a record.
pub fn read_optional_record<R: Record>(members: &Vec<(String, Json)>, name: &str) -> (value:
    Result<Option<R>, DecodeError>)
    ensures
        outcome(value) == optional_record::<R>(members_view(members@), name@),
{
    match find(members, name) {
        None => Ok(None),
        Some(Json::Null) => Ok(None),
        Some(json) => match read_as_record::<R>(json, name) {
            Ok(record) => Ok(Some(record)),
            Err(error) => Err(error),
        },
    }
}

/// Reads a required field that holds an array of records.
pub fn read_records<R: Record>(members: &Vec<(String, Json)>, name: &str) -> (value: Result<
    Vec<R>,
    DecodeError,
>)
    ensures
        outcome(value) == required_records::<R>(members_view(members@), name@),
{
    match find(members, name) {
        None => Err(DecodeError::Missing(String::from_str(name))),
        Some(Json::Array(items)) => {
            proof {
                lemma_array_view(*items);
            }
            let ghost views = items_view(items@);
            let mut records: Vec<R> = Vec::new();
            let mut i: usize = 0;
            while i < items.len()
                invariant
                    i <= items.len(),
                    views == items_view(items@),
                    required_records::<R>(members_view(members@), name@) == records_of::<R>(
                        views,
                        name@,
                    ),
                    records.len() == i,
                    forall|j: int|
                        0 <= j < i ==> #[trigger] as_record::<R>(views[j], name@) == Ok::<
                            R::V,
                            DecodeErrorView,
                        >(records.deep_view()[j]),
                decreases items.len() - i,
            {
                match read_as_record::<R>(&items[i], name) {
                    Ok(record) => {
                        let ghost before = records.deep_view();
                        records.push(record);
                        assert(records.deep_view() =~= before.push(record.deep_view()));
                    },
                    Err(error) => {
                        proof {
                            lemma_records_fail::<R>(views, name@, i as int);
                        }
                        return Err(error);
                    },
                }
                i += 1;
            }
            proof {
                lemma_records_all::<R>(views, name@, records.deep_view());
            }
            Ok(records)
        },
        Some(_) => Err(DecodeError::WrongType(String::from_str(name))),
    }
}

/// Writes a record as an object.
pub fn write_record<R: Record>(record: &R) -> (json: Json)
    ensures
        json@ == record_json::<R>(record.deep_view()),
{
    let members = record.encode();
    proof {
        lemma_object_view(members);
    }
    Json::Object(members)
}

/// Writes an optional record: as an object, or as `null` where there is none.
pub fn write_optional_record<R: Record>(record: &Option<R>) -> (json: Json)
    ensures
        json@ == optional_record_json::<R>(record.deep_view()),
{
    match record {
        Some(record) => write_record::<R>(record),
        None => Json::Null,
    }
}

/// Writes a sequence of records as an array of objects.
pub fn write_records<R: Record>(records: &Vec<R>) -> (json: Json)
    ensures
        json@ == records_json::<R>(records.deep_view()),
{
    let mut items: Vec<Json> = Vec::new();
    let mut i: usize = 0;
    while i < records.len()
        invariant
            i <= records.len(),
            items.len() == i,
            forall|j: int|
                0 <= j < i ==> (#[trigger] items@[j])@ == record_json::<R>(
                    records.deep_view()[j],
                ),
        decreases records.len() - i,
    {
        let item = write_record::<R>(&records[i]);
        items.push(item);
        i += 1;
    }
    proof {
        lemma_array_view(items);
        assert(items_view(items@) =~= records_json::<R>(records.deep_view())->Array_0);
    }
    Json::Array(items)
}

} // verus!
