//! JSON values as the decoders read them.

use vstd::prelude::*;
use vstd::string::*;

verus! {

/// A JSON number, kept in the form in which it was written.
#[derive(Clone, Copy, Debug, PartialEq, Eq, Structural)]
pub enum Number {
    /// A whole number that is not negative.
    Unsigned(u64),
    /// A whole number with a sign.
    Signed(i64),
    /// A number with a fraction or an exponent, as the bit pattern of the
    /// binary64 value nearest to it.
    Real(u64),
}

impl DeepView for Number {
    type V = Number;

    open spec fn deep_view(&self) -> Number {
        *self
    }
}

/// A JSON value as plain mathematical data.
pub enum JsonView {
    /// `null`.
    Null,
    /// `true` or `false`.
    Bool(bool),
    /// A number.
    Number(Number),
    /// A string.
    Text(Seq<char>),
    /// An array: its items in their order.
    Array(Seq<JsonView>),
    /// An object: its members, each a name and a value, in their order.
    Object(Seq<(Seq<char>, JsonView)>),
}

/// A JSON value. An object keeps its members in the order in which they
/// were written; where two members share a name, the first one counts.
#[derive(Debug, PartialEq)]
pub enum Json {
    /// `null`.
    Null,
    /// `true` or `false`.
    Bool(bool),
    /// A number.
    Number(Number),
    /// A string.
    Text(String),
    /// An array: its items in their order.
    Array(Vec<Json>),
    /// An object: its members, each a name and a value, in their order.
    Object(Vec<(String, Json)>),
}

/// The plain mathematical data that a JSON value stands for.
pub open spec fn json_view(json: Json) -> JsonView
    decreases json,
{
    match json {
        Json::Null => JsonView::Null,
        Json::Bool(b) => JsonView::Bool(b),
        Json::Number(n) => JsonView::Number(n),
        Json::Text(s) => JsonView::Text(s@),
        Json::Array(items) => JsonView::Array(
            Seq::new(
                items.len() as nat,
                |i: int|
                    if 0 <= i < items.len() {
                        json_view(items[i])
                    } else {
                        JsonView::Null
                    },
            ),
        ),
        Json::Object(members) => JsonView::Object(
            Seq::new(
                members.len() as nat,
                |i: int|
                    if 0 <= i < members.len() {
                        (members[i].0@, json_view(members[i].1))
                    } else {
                        (Seq::empty(), JsonView::Null)
                    },
            ),
        ),
    }
}

impl View for Json {
    type V = JsonView;

    open spec fn view(&self) -> JsonView {
        json_view(*self)
    }
}

/// The members of an object, each with its name and its value as plain
/// mathematical data.
pub open spec fn members_view(members: Seq<(String, Json)>) -> Seq<(Seq<char>, JsonView)> {
    Seq::new(members.len(), |i: int| (members[i].0@, members[i].1@))
}

/// The items of an array as plain mathematical data.
pub open spec fn items_view(items: Seq<Json>) -> Seq<JsonView> {
    Seq::new(items.len(), |i: int| items[i]@)
}

/// The value of the first member called `name`, if there is one.
pub open spec fn member(members: Seq<(Seq<char>, JsonView)>, name: Seq<char>) -> Option<JsonView>
    decreases members.len(),
{
    if members.len() == 0 {
        None
    } else if members[0].0 == name {
        Some(members[0].1)
    } else {
        member(members.drop_first(), name)
    }
}

/// The length of a name together with its first and its last character. Two
/// names that differ in any of the three are different names.
pub open spec fn outline(name: Seq<char>) -> (nat, char, char) {
    (name.len(), name.first(), name.last())
}

/// An object's view holds the views of its members, in their order.
pub proof fn lemma_object_view(members: Vec<(String, Json)>)
    ensures
        Json::Object(members)@ == JsonView::Object(members_view(members@)),
{
    assert(Json::Object(members)@->Object_0 =~= members_view(members@));
}

/// An array's view holds the views of its items, in their order.
pub proof fn lemma_array_view(items: Vec<Json>)
    ensures
        Json::Array(items)@ == JsonView::Array(items_view(items@)),
{
    assert(Json::Array(items)@->Array_0 =~= items_view(items@));
}

/// Where no member before position `i` is called `name` and the one at `i`
/// is, the lookup yields the value at `i`.
pub proof fn lemma_member_at(members: Seq<(Seq<char>, JsonView)>, name: Seq<char>, i: int)
    requires
        0 <= i < members.len(),
        members[i].0 == name,
        forall|j: int| 0 <= j < i ==> members[j].0 != name,
    ensures
        member(members, name) == Some(members[i].1),
    decreases i,
{
    if i > 0 {
        let rest = members.drop_first();
        assert(rest[i - 1] == members[i]);
        assert forall|j: int| 0 <= j < i - 1 implies rest[j].0 != name by {
            assert(rest[j] == members[j + 1]);
        }
        lemma_member_at(rest, name, i - 1);
    }
}

/// Where no member is called `name`, the lookup yields nothing.
pub proof fn lemma_member_absent(members: Seq<(Seq<char>, JsonView)>, name: Seq<char>)
    requires
        forall|j: int| 0 <= j < members.len() ==> members[j].0 != name,
    ensures
        member(members, name) is None,
    decreases members.len(),
{
    if members.len() > 0 {
        let rest = members.drop_first();
        assert forall|j: int| 0 <= j < rest.len() implies rest[j].0 != name by {
            assert(rest[j] == members[j + 1]);
        }
        lemma_member_absent(rest, name);
    }
}

/// Looks up the first member called `name`.
pub fn find<'a>(members: &'a Vec<(String, Json)>, name: &str) -> (found: Option<&'a Json>)
    ensures
        match found {
            Some(value) => member(members_view(members@), name@) == Some(value@),
            None => member(members_view(members@), name@) is None,
        },
{
    let wanted = String::from_str(name);
    let mut i: usize = 0;
    while i < members.len()
        invariant
            i <= members.len(),
            wanted@ == name@,
            forall|j: int| 0 <= j < i ==> members_view(members@)[j].0 != name@,
        decreases members.len() - i,
    {
        if members[i].0 == wanted {
            proof {
                lemma_member_at(members_view(members@), name@, i as int);
            }
            return Some(&members[i].1);
        }
        i += 1;
    }
    proof {
        lemma_member_absent(members_view(members@), name@);
    }
    None
}

} // verus!
