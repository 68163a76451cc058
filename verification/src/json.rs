//! JSON documents as plain data, and the text form that the wire carries.

use vstd::prelude::*;

verus! {

/// A JSON document.
///
/// A number is held as decimal text: `7`, `-3`, `55.5`, `1e300`. Objects
/// keep their members in document order, and may hold a name twice.
#[derive(Debug, PartialEq, Eq)]
pub enum Json {
    Null,
    Bool(bool),
    Number(String),
    Str(String),
    Array(Vec<Json>),
    Object(Vec<(String, Json)>),
}

/// The mathematical value of a [`Json`].
pub enum JsonTree {
    Null,
    Bool(bool),
    Number(Seq<char>),
    Str(Seq<char>),
    Array(Seq<JsonTree>),
    Object(Seq<(Seq<char>, JsonTree)>),
}

impl View for Json {
    type V = JsonTree;

    open spec fn view(&self) -> JsonTree {
        tree_of(*self)
    }
}

/// The tree that a document stands for.
pub open spec fn tree_of(json: Json) -> JsonTree
    decreases json,
{
    match json {
        Json::Null => JsonTree::Null,
        Json::Bool(b) => JsonTree::Bool(b),
        Json::Number(digits) => JsonTree::Number(digits@),
        Json::Str(s) => JsonTree::Str(s@),
        Json::Array(items) => JsonTree::Array(items_view(items@)),
        Json::Object(members) => JsonTree::Object(members_view(members@)),
    }
}

/// The items of an array, each by its view.
pub open spec fn items_view(items: Seq<Json>) -> Seq<JsonTree>
    decreases items,
{
    if items.len() == 0 {
        Seq::empty()
    } else {
        items_view(items.drop_last()).push(tree_of(items.last()))
    }
}

/// The members of an object, each key and value by its view.
pub open spec fn members_view(members: Seq<(String, Json)>) -> Seq<(Seq<char>, JsonTree)>
    decreases members,
{
    if members.len() == 0 {
        Seq::empty()
    } else {
        members_view(members.drop_last()).push((members.last().0@, tree_of(members.last().1)))
    }
}

/// `items_view` keeps the length and views each item in its place.
pub proof fn lemma_items_view(items: Seq<Json>)
    ensures
        items_view(items).len() == items.len(),
        forall|i: int| 0 <= i < items.len() ==> (#[trigger] items_view(items)[i]) == items[i]@,
    decreases items.len(),
{
    if items.len() > 0 {
        lemma_items_view(items.drop_last());
    }
}

/// `members_view` keeps the length and views each member in its place.
pub proof fn lemma_members_view(members: Seq<(String, Json)>)
    ensures
        members_view(members).len() == members.len(),
        forall|i: int|
            0 <= i < members.len() ==> (#[trigger] members_view(members)[i]) == (
                members[i].0@,
                members[i].1@,
            ),
    decreases members.len(),
{
    if members.len() > 0 {
        lemma_members_view(members.drop_last());
    }
}

impl Clone for Json {
    fn clone(&self) -> (copy: Json)
        ensures
            copy@ == self@,
        decreases self,
    {
        match self {
            Json::Null => Json::Null,
            Json::Bool(b) => Json::Bool(*b),
            Json::Number(digits) => Json::Number(digits.clone()),
            Json::Str(s) => Json::Str(s.clone()),
            Json::Array(items) => {
                let mut copies: Vec<Json> = Vec::new();
                let mut i: usize = 0;
                while i < items.len()
                    invariant
                        *self == Json::Array(*items),
                        i <= items.len(),
                        copies.len() == i,
                        forall|k: int| 0 <= k < i ==> copies@[k]@ == items@[k]@,
                    decreases items.len() - i,
                {
                    proof {
                        broadcast use vstd::std_specs::vec::axiom_vec_index_decreases;

                        assert(self->Array_0 == *items);
                    }
                    copies.push(items[i].clone());
                    i += 1;
                }
                proof {
                    lemma_items_view(copies@);
                    lemma_items_view(items@);
                    assert(items_view(copies@) =~= items_view(items@));
                }
                Json::Array(copies)
            },
            Json::Object(members) => {
                let mut copies: Vec<(String, Json)> = Vec::new();
                let mut i: usize = 0;
                while i < members.len()
                    invariant
                        *self == Json::Object(*members),
                        i <= members.len(),
                        copies.len() == i,
                        forall|k: int|
                            0 <= k < i ==> copies@[k].0@ == members@[k].0@ && copies@[k].1@
                                == members@[k].1@,
                    decreases members.len() - i,
                {
                    proof {
                        broadcast use vstd::std_specs::vec::axiom_vec_index_decreases;

                        assert(self->Object_0 == *members);
                    }
                    copies.push((members[i].0.clone(), members[i].1.clone()));
                    i += 1;
                }
                proof {
                    lemma_members_view(copies@);
                    lemma_members_view(members@);
                    assert(members_view(copies@) =~= members_view(members@));
                }
                Json::Object(copies)
            },
        }
    }
}

/// The value of the first member named `key`, if there is one.
pub open spec fn member(members: Seq<(Seq<char>, JsonTree)>, key: Seq<char>) -> Option<JsonTree>
    decreases members.len(),
{
    if members.len() == 0 {
        None
    } else if members[0].0 == key {
        Some(members[0].1)
    } else {
        member(members.drop_first(), key)
    }
}

/// A member that no earlier member shadows is the one that `member` finds.
pub proof fn lemma_member_at(members: Seq<(Seq<char>, JsonTree)>, key: Seq<char>, i: int)
    requires
        0 <= i < members.len(),
        members[i].0 == key,
        forall|k: int| 0 <= k < i ==> (#[trigger] members[k]).0 != key,
    ensures
        member(members, key) == Some(members[i].1),
    decreases i,
{
    if i > 0 {
        let rest = members.drop_first();
        assert forall|k: int| 0 <= k < i - 1 implies (#[trigger] rest[k]).0 != key by {}
        lemma_member_at(rest, key, i - 1);
    }
}

/// Where no member is named `key`, `member` finds nothing.
pub proof fn lemma_member_absent(members: Seq<(Seq<char>, JsonTree)>, key: Seq<char>)
    requires
        forall|k: int| 0 <= k < members.len() ==> (#[trigger] members[k]).0 != key,
    ensures
        member(members, key) is None,
    decreases members.len(),
{
    if members.len() > 0 {
        let rest = members.drop_first();
        assert forall|k: int| 0 <= k < rest.len() implies (#[trigger] rest[k]).0 != key by {}
        lemma_member_absent(rest, key);
    }
}

/// Taking a member out leaves the members of every other name as they were.
pub proof fn lemma_member_remove(members: Seq<(Seq<char>, JsonTree)>, i: int, other: Seq<char>)
    requires
        0 <= i < members.len(),
        members[i].0 != other,
    ensures
        member(members.remove(i), other) == member(members, other),
    decreases i,
{
    if i > 0 {
        assert(members.remove(i).drop_first() =~= members.drop_first().remove(i - 1));
        if members[0].0 != other {
            lemma_member_remove(members.drop_first(), i - 1, other);
        }
    }
}

/// Looking a name up in two runs of members laid end to end: the first run
/// is asked first.
pub proof fn lemma_member_concat(
    first: Seq<(Seq<char>, JsonTree)>,
    second: Seq<(Seq<char>, JsonTree)>,
    key: Seq<char>,
)
    ensures
        member(first + second, key) == match member(first, key) {
            Some(value) => Some(value),
            None => member(second, key),
        },
    decreases first.len(),
{
    if first.len() > 0 {
        assert((first + second).drop_first() =~= first.drop_first() + second);
        lemma_member_concat(first.drop_first(), second, key);
    }
}

/// Takes the first member named `key` out of an object's members.
///
/// The other members keep their order, and what `member` finds under any
/// other name is unchanged.
pub fn take_member(members: &mut Vec<(String, Json)>, key: &str) -> (value: Option<Json>)
    ensures
        match value {
            Some(json) => member(members_view(old(members)@), key@) == Some(json@),
            None => member(members_view(old(members)@), key@) is None,
        },
        forall|other: Seq<char>|
            other != key@ ==> #[trigger] member(members_view(final(members)@), other) == member(
                members_view(old(members)@),
                other,
            ),
{
    let wanted = String::from_str(key);
    let ghost before = members_view(members@);
    let mut i: usize = 0;
    while i < members.len()
        invariant
            i <= members.len(),
            wanted@ == key@,
            before == members_view(members@),
            *members == *old(members),
            forall|k: int| 0 <= k < i ==> (#[trigger] before[k]).0 != key@,
        decreases members.len() - i,
    {
        if members[i].0 == wanted {
            proof {
                lemma_members_view(members@);
            }
            let found = members.remove(i);
            proof {
                lemma_member_at(before, key@, i as int);
                lemma_members_view(old(members)@);
                lemma_members_view(members@);
                assert(members_view(members@) =~= before.remove(i as int));
                assert forall|other: Seq<char>| other != key@ implies #[trigger] member(
                    members_view(members@),
                    other,
                ) == member(before, other) by {
                    lemma_member_remove(before, i as int, other);
                }
            }
            return Some(found.1);
        }
        proof {
            lemma_members_view(members@);
        }
        i += 1;
    }
    proof {
        lemma_members_view(members@);
        lemma_member_absent(before, key@);
    }
    None
}

/// The document that `serde_json` reads from a text, `None` where it
/// rejects the text. Nothing is stated of it but that it depends on the
/// text alone.
pub uninterp spec fn json_parse(text: Seq<char>) -> Option<JsonTree>;

/// The compact text that `serde_json` writes for a document. Nothing is
/// stated of it but that it depends on the document alone.
pub uninterp spec fn json_text(tree: JsonTree) -> Seq<char>;

/// `serde_json::Value`, the document type of `serde_json`. It is built with
/// `preserve_order`, so its objects keep the order of their members.
#[verifier::external_type_specification]
#[verifier::external_body]
pub struct ExValue(serde_json::Value);

/// Turns a `serde_json::Value` into a [`Json`], variant by variant. A number
/// becomes the text that `serde_json::Number` displays. Nothing is claimed
/// of the result.
#[verifier::external_body]
fn from_value(value: serde_json::Value) -> (json: Json) {
    match value {
        serde_json::Value::Null => Json::Null,
        serde_json::Value::Bool(b) => Json::Bool(b),
        serde_json::Value::Number(n) => Json::Number(n.to_string()),
        serde_json::Value::String(s) => Json::Str(s),
        serde_json::Value::Array(items) => Json::Array(items.into_iter().map(from_value).collect()),
        serde_json::Value::Object(members) => Json::Object(
            members.into_iter().map(|(k, v)| (k, from_value(v))).collect(),
        ),
    }
}

/// Turns a [`Json`] into a `serde_json::Value`, variant by variant. The text
/// of a number is read by `serde_json::Number::from_str`, and a text that it
/// rejects becomes `null`. Of two members with one name the map keeps the
/// place of the first and the value of the second. Nothing is claimed of the
/// result.
#[verifier::external_body]
fn to_value(json: &Json) -> (value: serde_json::Value) {
    match json {
        Json::Null => serde_json::Value::Null,
        Json::Bool(b) => serde_json::Value::Bool(*b),
        Json::Number(digits) => digits.parse::<serde_json::Number>().map_or(
            serde_json::Value::Null,
            serde_json::Value::Number,
        ),
        Json::Str(s) => serde_json::Value::String(s.clone()),
        Json::Array(items) => serde_json::Value::Array(items.iter().map(to_value).collect()),
        Json::Object(members) => serde_json::Value::Object(
            members.iter().map(|(k, v)| (k.clone(), to_value(v))).collect(),
        ),
    }
}

/// Calls `serde_json::from_str` for a `serde_json::Value`. The contract
/// claims that the outcome is a function of the text: it gives that
/// function the name [`json_parse`], with `None` for a rejected text.
#[verifier::external_body]
fn parse_text(text: &str) -> (parsed: Option<Json>)
    ensures
        match parsed {
            Some(json) => json_parse(text@) == Some(json@),
            None => json_parse(text@) is None,
        },
{
    match serde_json::from_str::<serde_json::Value>(text) {
        Ok(value) => Some(from_value(value)),
        Err(_) => None,
    }
}

/// Calls `serde_json::to_string` on the document as a `serde_json::Value`,
/// which does not fail on one. The contract claims that the text is a
/// function of the document: it gives that function the name
/// [`json_text`].
#[verifier::external_body]
fn print_text(json: &Json) -> (text: String)
    ensures
        text@ == json_text(json@),
{
    serde_json::to_string(&to_value(json)).unwrap_or_default()
}

impl Json {
    /// Reads a text as one JSON document.
    pub fn parse(text: &str) -> (parsed: Option<Json>)
        ensures
            match parsed {
                Some(json) => json_parse(text@) == Some(json@),
                None => json_parse(text@) is None,
            },
    {
        parse_text(text)
    }

    /// Writes the document as compact JSON text.
    pub fn to_text(&self) -> (text: String)
        ensures
            text@ == json_text(self@),
    {
        print_text(self)
    }
}

} // verus!
