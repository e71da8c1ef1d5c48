//! The document tree that configuration files are read into.

use vstd::prelude::*;
use crate::assoc::{
    is_last_entry, keys_of, lemma_to_map_absent, lemma_to_map_found, lemma_to_map_push,
    lemma_to_map_update, no_entry, position, to_map,
};
use crate::codec::{copy_number, number_doc};

verus! {

/// What a number of a document holds.
pub enum NumberView {
    /// An integer.
    Integer(int),
    /// Any other number, by its decimal text.
    Real(Seq<char>),
}

/// A document: a tree of scalars, arrays and objects. An object is a list
/// of members; where two members have the same key, the later one counts.
#[derive(Debug, PartialEq, Eq)]
pub enum Json {
    Null,
    Bool(bool),
    Number(serde_json::Number),
    String(String),
    Array(Vec<Json>),
    Object(Vec<(String, Json)>),
}

/// What a document says: its objects are maps from keys to documents.
#[verifier::ext_equal]
pub enum JsonView {
    Null,
    Bool(bool),
    Number(NumberView),
    String(Seq<char>),
    Array(Seq<JsonView>),
    Object(Map<Seq<char>, JsonView>),
}

impl View for Json {
    type V = JsonView;

    open spec fn view(&self) -> JsonView
        decreases self,
    {
        match self {
            Json::Null => JsonView::Null,
            Json::Bool(b) => JsonView::Bool(*b),
            Json::Number(n) => JsonView::Number(number_doc(*n)),
            Json::String(s) => JsonView::String(s@),
            Json::Array(items) => JsonView::Array(item_views(items@)),
            Json::Object(members) => JsonView::Object(to_map(member_views(members@))),
        }
    }
}

/// The views of a list of documents.
pub open spec fn item_views(items: Seq<Json>) -> Seq<JsonView>
    decreases items,
{
    Seq::new(
        items.len(),
        |i: int|
            if 0 <= i < items.len() {
                items[i].view()
            } else {
                JsonView::Null
            },
    )
}

/// The views of a list of members.
pub open spec fn member_views(members: Seq<(String, Json)>) -> Seq<(Seq<char>, JsonView)>
    decreases members,
{
    Seq::new(
        members.len(),
        |i: int|
            if 0 <= i < members.len() {
                (members[i].0@, members[i].1.view())
            } else {
                (Seq::empty(), JsonView::Null)
            },
    )
}

/// The map that a list of members stands for.
pub open spec fn member_map(members: Seq<(String, Json)>) -> Map<Seq<char>, JsonView> {
    to_map(member_views(members))
}

/// One more member at the end binds its key to its value.
pub proof fn lemma_member_map_push(members: Seq<(String, Json)>, key: String, value: Json)
    ensures
        member_map(members.push((key, value))) == member_map(members).insert(key@, value@),
{
    assert(member_views(members.push((key, value))) =~= member_views(members).push(
        (key@, value@),
    ));
    lemma_to_map_push(member_views(members), key@, value@);
}

/// The value that `members` binds `key` to, if any.
pub fn get_member<'a>(members: &'a Vec<(String, Json)>, key: &str) -> (r: Option<&'a Json>)
    ensures
        r is Some == member_map(members@).contains_key(key@),
        r matches Some(v) ==> v@ == member_map(members@)[key@],
{
    let found = position(members, key);
    proof {
        assert(keys_of(members@) =~= Seq::new(
            member_views(members@).len(),
            |i: int| member_views(members@)[i].0,
        ));
        match found {
            Some(i) => {
                assert(is_last_entry(keys_of(members@), key@, i as int));
                assert forall|j: int| i < j < member_views(members@).len() implies member_views(
                    members@,
                )[j].0 != key@ by {
                    assert(keys_of(members@)[j] != key@);
                }
                assert(keys_of(members@)[i as int] == key@);
                lemma_to_map_found(member_views(members@), key@, i as int);
            },
            None => {
                assert(no_entry(keys_of(members@), key@));
                assert forall|j: int| 0 <= j < member_views(members@).len() implies member_views(
                    members@,
                )[j].0 != key@ by {
                    assert(keys_of(members@)[j] != key@);
                }
                lemma_to_map_absent(member_views(members@), key@);
            },
        }
    }
    match found {
        Some(i) => Some(&members[i].1),
        None => None,
    }
}

/// Binds `key` to `value` in `members`: in place of the entry that counts
/// for `key`, or at the end where there is none.
pub fn set_member(members: &mut Vec<(String, Json)>, key: String, value: Json)
    ensures
        member_map(final(members)@) == member_map(old(members)@).insert(key@, value@),
{
    let found = position(members, key.as_str());
    match found {
        Some(i) => {
            proof {
                let s = member_views(members@);
                assert(keys_of(members@)[i as int] == key@);
                assert forall|j: int| i < j < s.len() implies s[j].0 != s[i as int].0 by {
                    assert(keys_of(members@)[j] != key@);
                }
                lemma_to_map_update(s, i as int, value@);
                assert(member_views(members@.update(i as int, (key, value))) =~= s.update(
                    i as int,
                    (s[i as int].0, value@),
                ));
            }
            members.set(i, (key, value));
        },
        None => {
            proof {
                lemma_member_map_push(members@, key, value);
            }
            members.push((key, value));
        },
    }
}

impl Json {
    /// A copy of this document.
    pub fn duplicate(&self) -> (r: Json)
        ensures
            r@ == self@,
        decreases self,
    {
        match self {
            Json::Null => Json::Null,
            Json::Bool(b) => Json::Bool(*b),
            Json::Number(n) => Json::Number(copy_number(n)),
            Json::String(s) => Json::String(s.clone()),
            Json::Array(items) => {
                let mut out: Vec<Json> = Vec::new();
                let mut i: usize = 0;
                while i < items.len()
                    invariant
                        self is Array,
                        self->Array_0 == *items,
                        i <= items.len(),
                        out.len() == i,
                        forall|j: int| 0 <= j < i ==> out[j]@ == items[j]@,
                    decreases items.len() - i,
                {
                    proof {
                        vstd::std_specs::vec::axiom_vec_index_decreases(*items, i as int);
                        assert(decreases_to!(self => self->Array_0[i as int]));
                    }
                    let copy = items[i].duplicate();
                    out.push(copy);
                    i += 1;
                }
                assert(item_views(out@) =~= item_views(items@));
                Json::Array(out)
            },
            Json::Object(members) => {
                let mut out: Vec<(String, Json)> = Vec::new();
                let mut i: usize = 0;
                while i < members.len()
                    invariant
                        self is Object,
                        self->Object_0 == *members,
                        i <= members.len(),
                        out.len() == i,
                        forall|j: int|
                            0 <= j < i ==> out[j].0@ == members[j].0@ && out[j].1@ == members[j].1@,
                    decreases members.len() - i,
                {
                    proof {
                        vstd::std_specs::vec::axiom_vec_index_decreases(*members, i as int);
                        assert(decreases_to!(self => self->Object_0[i as int].1));
                    }
                    let copy = members[i].1.duplicate();
                    out.push((members[i].0.clone(), copy));
                    i += 1;
                }
                assert(member_views(out@) =~= member_views(members@));
                Json::Object(out)
            },
        }
    }

    /// The member that this document binds `key` to, if it is an object
    /// that has one.
    pub fn get(&self, key: &str) -> (r: Option<&Json>)
        ensures
            r is Some == (self@ is Object && self@->Object_0.contains_key(key@)),
            r matches Some(v) ==> v@ == self@->Object_0[key@],
    {
        match self {
            Json::Object(members) => get_member(members, key),
            _ => None,
        }
    }
}

/// A document without `null`, whose objects have finitely many members.
pub open spec fn null_free(doc: JsonView) -> bool
    decreases doc,
{
    match doc {
        JsonView::Null => false,
        JsonView::Array(items) => forall|i: int|
            0 <= i < items.len() ==> null_free(#[trigger] items[i]),
        JsonView::Object(members) => null_free_members(members),
        _ => true,
    }
}

/// Members without `null`, and finitely many of them.
pub open spec fn null_free_members(members: Map<Seq<char>, JsonView>) -> bool
    decreases members,
{
    members.dom().finite() && forall|k: Seq<char>|
        members.contains_key(k) ==> null_free(#[trigger] members[k])
}

/// One more member without `null` leaves the members without `null`.
pub proof fn lemma_null_free_insert(
    members: Map<Seq<char>, JsonView>,
    key: Seq<char>,
    value: JsonView,
)
    requires
        null_free_members(members),
        null_free(value),
    ensures
        null_free_members(members.insert(key, value)),
{
}

} // verus!
