//! JSON values as the library reads and writes them.

use vstd::prelude::*;

verus! {

broadcast use vstd::std_specs::vec::axiom_vec_index_decreases;

/// A JSON value, as a mathematical tree.
pub enum JsonValue {
    Null,
    Bool(bool),
    /// A number without fraction or exponent.
    Integer(int),
    /// Any other number. Its value is not kept.
    Fraction,
    Text(Seq<char>),
    List(Seq<JsonValue>),
    /// The members of an object, in the order in which they stand.
    Record(Seq<(Seq<char>, JsonValue)>),
}

/// A JSON value in memory.
#[derive(Debug, PartialEq, Eq)]
pub enum Json {
    Null,
    Bool(bool),
    Integer(i128),
    Fraction,
    String(String),
    Array(Vec<Json>),
    Object(Vec<(String, Json)>),
}

impl View for Json {
    type V = JsonValue;

    /// The value of an array is the list of the values of its items, and
    /// the value of an object the record of its members' names and values.
    /// The bounds that are tested below hold wherever a sequence is asked;
    /// they stand there for the proof that the recursion ends.
    open spec fn view(&self) -> JsonValue
        decreases self,
    {
        match self {
            Json::Null => JsonValue::Null,
            Json::Bool(b) => JsonValue::Bool(*b),
            Json::Integer(i) => JsonValue::Integer(*i as int),
            Json::Fraction => JsonValue::Fraction,
            Json::String(s) => JsonValue::Text(s@),
            Json::Array(items) => JsonValue::List(
                Seq::new(
                    items@.len(),
                    |i: int|
                        if 0 <= i < items@.len() {
                            items@[i].view()
                        } else {
                            JsonValue::Null
                        },
                ),
            ),
            Json::Object(members) => JsonValue::Record(
                Seq::new(
                    members@.len(),
                    |i: int|
                        (
                            members@[i].0@,
                            if 0 <= i < members@.len() {
                                members@[i].1.view()
                            } else {
                                JsonValue::Null
                            },
                        ),
                ),
            ),
        }
    }
}

/// The values of the items of an array.
pub open spec fn items_view(items: Seq<Json>) -> Seq<JsonValue> {
    Seq::new(items.len(), |i: int| items[i]@)
}

/// The names and values of the members of an object.
pub open spec fn members_view(members: Seq<(String, Json)>) -> Seq<(Seq<char>, JsonValue)> {
    Seq::new(members.len(), |i: int| (members[i].0@, members[i].1@))
}

/// The value of an array is the list of the values of its items.
pub proof fn lemma_array_view(items: Vec<Json>)
    ensures
        Json::Array(items)@ == JsonValue::List(items_view(items@)),
{
    assert(Json::Array(items)@->List_0 =~= items_view(items@));
}

/// The value of an object is the record of its members' names and values.
pub proof fn lemma_object_view(members: Vec<(String, Json)>)
    ensures
        Json::Object(members)@ == JsonValue::Record(members_view(members@)),
{
    assert(Json::Object(members)@->Record_0 =~= members_view(members@));
}

/// The deepest nesting that the library writes, which is the deepest that
/// it reads: 127 arrays and objects, one inside the other.
pub const MAX_DEPTH: usize = 127;

/// Whether the names of `members` are all different.
pub open spec fn distinct_names(members: Seq<(Seq<char>, JsonValue)>) -> bool {
    forall|i: int, j: int|
        0 <= i < j < members.len() ==> (#[trigger] members[i]).0 != (#[trigger] members[j]).0
}

/// Whether `value` can be written as JSON text and read back unchanged
/// within `depth` levels of nesting: its integers fit in 64 bits, it holds
/// no number of which only the kind is known, and no object in it has two
/// members of one name.
pub open spec fn writable(value: JsonValue, depth: nat) -> bool
    decreases value,
{
    match value {
        JsonValue::Null => true,
        JsonValue::Bool(_) => true,
        JsonValue::Integer(i) => i64::MIN <= i <= u64::MAX,
        JsonValue::Fraction => false,
        JsonValue::Text(_) => true,
        JsonValue::List(items) => depth > 0 && forall|i: int|
            0 <= i < items.len() ==> writable(#[trigger] items[i], (depth - 1) as nat),
        JsonValue::Record(members) => depth > 0 && distinct_names(members) && forall|i: int|
            0 <= i < members.len() ==> writable((#[trigger] members[i]).1, (depth - 1) as nat),
    }
}

/// The first member of `members` that is called `name`.
pub open spec fn member(members: Seq<(Seq<char>, JsonValue)>, name: Seq<char>) -> Option<
    JsonValue,
>
    decreases members.len(),
{
    if members.len() == 0 {
        None
    } else if members[0].0 == name {
        Some(members[0].1)
    } else {
        member(members.drop_first(), name)
    }
}

/// The members of `members` but those called `name`, in their order.
pub open spec fn without(members: Seq<(Seq<char>, JsonValue)>, name: Seq<char>) -> Seq<
    (Seq<char>, JsonValue),
>
    decreases members.len(),
{
    if members.len() == 0 {
        members
    } else if members[0].0 == name {
        without(members.drop_first(), name)
    } else {
        seq![members[0]] + without(members.drop_first(), name)
    }
}

/// Taking the members of one name away takes that name away and leaves
/// what is found under every other name.
pub proof fn lemma_member_without(
    members: Seq<(Seq<char>, JsonValue)>,
    name: Seq<char>,
    other: Seq<char>,
)
    ensures
        member(without(members, name), name) is None,
        other != name ==> member(without(members, name), other) == member(members, other),
    decreases members.len(),
{
    if members.len() > 0 {
        let rest = members.drop_first();
        lemma_member_without(rest, name, other);
        if members[0].0 != name {
            let kept = seq![members[0]] + without(rest, name);
            assert(kept[0] == members[0]);
            assert(kept.drop_first() == without(rest, name));
        }
    }
}

/// The value of what a lookup found.
pub open spec fn found_view(found: Option<&Json>) -> Option<JsonValue> {
    match found {
        Some(json) => Some(json@),
        None => None,
    }
}

/// Looks up the first member of an object that is called `name`.
pub fn find_member<'a>(members: &'a Vec<(String, Json)>, name: &str) -> (found: Option<&'a Json>)
    ensures
        found_view(found) == member(members_view(members@), name@),
{
    let wanted = name.to_owned();
    let ghost all = members_view(members@);
    let mut i: usize = 0;
    assert(all.skip(0) == all);
    while i < members.len()
        invariant
            i <= members.len(),
            all == members_view(members@),
            wanted@ == name@,
            member(all, name@) == member(all.skip(i as int), name@),
        decreases members.len() - i,
    {
        proof {
            let rest = all.skip(i as int);
            assert(rest[0] == all[i as int]);
            assert(rest.drop_first() == all.skip(i + 1));
        }
        if members[i].0 == wanted {
            return Some(&members[i].1);
        }
        i += 1;
    }
    None
}

} // verus!
