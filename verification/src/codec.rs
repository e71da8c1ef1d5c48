//! Reading documents from JSON text and writing them as JSON or TOML text.
//!
//! The parsers and printers are those of `serde_json` and `toml`. What they
//! return is named here, not described: the contracts of this module say
//! which text and which document were handed to them. Their values are
//! taken apart and built one level at a time; the way through the levels
//! is this module's own.

use vstd::prelude::*;
use crate::assoc::{
    is_last_entry, keys_of, lemma_to_map_contains, lemma_to_map_finite, lemma_to_map_found,
    lemma_to_map_value, position, to_map,
};
use crate::json::{item_views, member_map, member_views, Json, JsonView, NumberView};

verus! {

#[verifier::external_type_specification]
#[verifier::external_body]
pub struct ExJsonNumber(serde_json::Number);

#[verifier::external_type_specification]
#[verifier::external_body]
pub struct ExJsonValue(serde_json::Value);

#[verifier::external_type_specification]
#[verifier::external_body]
pub struct ExTomlValue(toml::Value);

/// What a `serde_json::Number` holds: an integer, or the decimal text of
/// another number.
pub uninterp spec fn number_doc(n: serde_json::Number) -> NumberView;

/// What a `serde_json::Value` holds, as a document.
pub uninterp spec fn value_doc(v: serde_json::Value) -> JsonView;

/// What a `toml::Value` holds, as a document.
pub uninterp spec fn table_doc(v: toml::Value) -> JsonView;

/// The document that `serde_json::from_str` reads from a text, if it reads
/// one.
pub uninterp spec fn parsed_json(text: Seq<char>) -> Option<JsonView>;

/// The text that `serde_json::to_string` writes for a document, if it
/// writes one.
pub uninterp spec fn json_text(doc: JsonView) -> Option<Seq<char>>;

/// The text that `serde_json::to_string_pretty` writes for a document, if
/// it writes one.
pub uninterp spec fn json_text_pretty(doc: JsonView) -> Option<Seq<char>>;

/// The text that `toml::to_string` writes for a document, if it writes one.
pub uninterp spec fn toml_text(doc: JsonView) -> Option<Seq<char>>;

/// A document that TOML can hold: it has no `null`, and its integers fit
/// in 64 signed bits.
pub open spec fn toml_representable(doc: JsonView) -> bool
    decreases doc,
{
    match doc {
        JsonView::Null => false,
        JsonView::Bool(_) => true,
        JsonView::Number(NumberView::Integer(i)) => i64::MIN <= i <= i64::MAX,
        JsonView::Number(NumberView::Real(_)) => true,
        JsonView::String(_) => true,
        JsonView::Array(items) => forall|i: int|
            0 <= i < items.len() ==> toml_representable(#[trigger] items[i]),
        JsonView::Object(members) => members.dom().finite() && forall|k: Seq<char>|
            members.contains_key(k) ==> toml_representable(#[trigger] members[k]),
    }
}

/// `Clone::clone` of `serde_json::Number`: the copy holds the same number.
#[verifier::external_body]
pub(crate) fn copy_number(n: &serde_json::Number) -> (r: serde_json::Number)
    ensures
        number_doc(r) == number_doc(*n),
{
    n.clone()
}

/// `serde_json::Number::as_u64`: the number, where it is an integer from 0
/// to `u64::MAX`.
#[verifier::external_body]
pub(crate) fn number_as_u64(n: &serde_json::Number) -> (r: Option<u64>)
    ensures
        r == (match number_doc(*n) {
            NumberView::Integer(i) if 0 <= i <= u64::MAX => Some(i as u64),
            _ => None,
        }),
{
    n.as_u64()
}

/// `From<u64>` of `serde_json::Number`: the number that holds `n`.
#[verifier::external_body]
pub(crate) fn number_from_u64(n: u64) -> (r: serde_json::Number)
    ensures
        number_doc(r) == NumberView::Integer(n as int),
{
    serde_json::Number::from(n)
}

/// `serde_json::from_str`, for a `serde_json::Value`: the value holds the
/// document named `parsed_json` of the text, and an error comes, with its
/// message, exactly where there is none.
#[verifier::external_body]
fn parse_value(text: &str) -> (r: Result<serde_json::Value, String>)
    ensures
        r matches Ok(v) ==> parsed_json(text@) == Some(value_doc(v)),
        r is Err ==> parsed_json(text@) is None,
{
    match serde_json::from_str::<serde_json::Value>(text) {
        Ok(value) => Ok(value),
        Err(e) => Err(e.to_string()),
    }
}

/// One level of a document: a scalar, or an array or an object whose items
/// are still outside values.
pub enum Node<T> {
    Null,
    Bool(bool),
    Number(serde_json::Number),
    String(String),
    Array(Vec<T>),
    Object(Vec<(String, T)>),
}

/// The document of a level whose items are `serde_json::Value`s.
pub open spec fn json_node_doc(node: Node<serde_json::Value>) -> JsonView {
    match node {
        Node::Null => JsonView::Null,
        Node::Bool(b) => JsonView::Bool(b),
        Node::Number(n) => JsonView::Number(number_doc(n)),
        Node::String(s) => JsonView::String(s@),
        Node::Array(items) => JsonView::Array(
            Seq::new(items.len() as nat, |i: int| value_doc(items[i])),
        ),
        Node::Object(members) => JsonView::Object(
            to_map(
                Seq::new(
                    members.len() as nat,
                    |i: int| (members[i].0@, value_doc(members[i].1)),
                ),
            ),
        ),
    }
}

/// The document of a level whose items are `toml::Value`s.
pub open spec fn toml_node_doc(node: Node<toml::Value>) -> JsonView {
    match node {
        Node::Null => JsonView::Null,
        Node::Bool(b) => JsonView::Bool(b),
        Node::Number(n) => JsonView::Number(number_doc(n)),
        Node::String(s) => JsonView::String(s@),
        Node::Array(items) => JsonView::Array(
            Seq::new(items.len() as nat, |i: int| table_doc(items[i])),
        ),
        Node::Object(members) => JsonView::Object(
            to_map(
                Seq::new(
                    members.len() as nat,
                    |i: int| (members[i].0@, table_doc(members[i].1)),
                ),
            ),
        ),
    }
}

/// No two members of a level have the same key.
pub open spec fn distinct_keys<T>(node: Node<T>) -> bool {
    node matches Node::Object(members) ==> forall|i: int, j: int|
        0 <= i < j < members.len() ==> members[i].0@ != members[j].0@
}

/// A level that TOML can hold: it is no `null`, and where it is an integer
/// it fits in 64 signed bits.
pub open spec fn toml_level<T>(node: Node<T>) -> bool {
    match node {
        Node::Null => false,
        Node::Number(n) => (number_doc(n) matches NumberView::Integer(i) ==> i64::MIN <= i
            <= i64::MAX),
        _ => true,
    }
}

/// Takes the top level of a `serde_json::Value` apart, variant by variant:
/// the items of an array in their order, and the members of an object, no
/// two of which have the same key.
#[verifier::external_body]
fn json_node(value: &serde_json::Value) -> (r: Node<serde_json::Value>)
    ensures
        json_node_doc(r) == value_doc(*value),
        distinct_keys(r),
{
    match value {
        serde_json::Value::Null => Node::Null,
        serde_json::Value::Bool(b) => Node::Bool(*b),
        serde_json::Value::Number(n) => Node::Number(n.clone()),
        serde_json::Value::String(s) => Node::String(s.clone()),
        serde_json::Value::Array(a) => Node::Array(a.clone()),
        serde_json::Value::Object(o) => Node::Object(
            o.iter().map(|(k, v)| (k.clone(), v.clone())).collect(),
        ),
    }
}

/// Builds a `serde_json::Value` from its top level, variant by variant.
/// The members of an object are inserted in their order, so of two members
/// with one key the later one stays.
#[verifier::external_body]
fn json_value(node: Node<serde_json::Value>) -> (r: serde_json::Value)
    ensures
        value_doc(r) == json_node_doc(node),
{
    match node {
        Node::Null => serde_json::Value::Null,
        Node::Bool(b) => serde_json::Value::Bool(b),
        Node::Number(n) => serde_json::Value::Number(n),
        Node::String(s) => serde_json::Value::String(s),
        Node::Array(items) => serde_json::Value::Array(items),
        Node::Object(members) => {
            let mut map = serde_json::Map::new();
            for (k, v) in members {
                map.insert(k, v);
            }
            serde_json::Value::Object(map)
        },
    }
}

/// Builds a `toml::Value` from its top level, variant by variant, where
/// TOML can hold the level. The members of a table are inserted in their
/// order, so of two members with one key the later one stays.
#[verifier::external_body]
fn toml_value(node: Node<toml::Value>) -> (r: Option<toml::Value>)
    ensures
        r is Some == toml_level(node),
        r matches Some(v) ==> table_doc(v) == toml_node_doc(node),
{
    Some(match node {
        Node::Null => return None,
        Node::Bool(b) => toml::Value::Boolean(b),
        Node::Number(n) if n.is_f64() => toml::Value::Float(n.as_f64()?),
        Node::Number(n) => toml::Value::Integer(n.as_i64()?),
        Node::String(s) => toml::Value::String(s),
        Node::Array(items) => toml::Value::Array(items),
        Node::Object(members) => {
            let mut table = toml::value::Table::new();
            for (k, v) in members {
                table.insert(k, v);
            }
            toml::Value::Table(table)
        },
    })
}

/// The document that a `serde_json::Value` holds.
fn document_of(value: &serde_json::Value) -> (r: Json)
    ensures
        r@ == value_doc(*value),
    decreases value_doc(*value),
{
    match json_node(value) {
        Node::Null => Json::Null,
        Node::Bool(b) => Json::Bool(b),
        Node::Number(n) => Json::Number(n),
        Node::String(s) => Json::String(s),
        Node::Array(items) => {
            let ghost docs = Seq::new(items.len() as nat, |i: int| value_doc(items[i]));
            let mut out: Vec<Json> = Vec::new();
            let mut i: usize = 0;
            while i < items.len()
                invariant
                    value_doc(*value) == JsonView::Array(docs),
                    docs == Seq::new(items.len() as nat, |i: int| value_doc(items[i])),
                    i <= items.len(),
                    out.len() == i,
                    forall|j: int| 0 <= j < i ==> (#[trigger] out[j])@ == docs[j],
                decreases items.len() - i,
            {
                proof {
                    assert(docs[i as int] == value_doc(items[i as int]));
                    assert(decreases_to!(value_doc(*value) => value_doc(*value)->Array_0[i as int]));
                }
                out.push(document_of(&items[i]));
                i += 1;
            }
            assert(item_views(out@) =~= docs);
            Json::Array(out)
        },
        Node::Object(members) => {
            let ghost pairs = Seq::new(
                members.len() as nat,
                |i: int| (members[i].0@, value_doc(members[i].1)),
            );
            let mut out: Vec<(String, Json)> = Vec::new();
            let mut i: usize = 0;
            while i < members.len()
                invariant
                    value_doc(*value) == JsonView::Object(to_map(pairs)),
                    pairs == Seq::new(
                        members.len() as nat,
                        |i: int| (members[i].0@, value_doc(members[i].1)),
                    ),
                    forall|a: int, b: int|
                        0 <= a < b < members.len() ==> members[a].0@ != members[b].0@,
                    i <= members.len(),
                    out.len() == i,
                    forall|j: int|
                        0 <= j < i ==> (#[trigger] out[j]).0@ == pairs[j].0 && out[j].1@
                            == pairs[j].1,
                decreases members.len() - i,
            {
                proof {
                    assert(pairs[i as int].1 == value_doc(members[i as int].1));
                    assert forall|j: int| i < j < pairs.len() implies pairs[j].0 != pairs[i as int].0 by {
                        assert(members[i as int].0@ != members[j].0@);
                    }
                    lemma_to_map_found(pairs, pairs[i as int].0, i as int);
                    lemma_to_map_finite(pairs);
                    assert(decreases_to!(value_doc(*value) => value_doc(*value)->Object_0[pairs[i as int].0]));
                }
                out.push((members[i].0.clone(), document_of(&members[i].1)));
                i += 1;
            }
            assert(member_views(out@) =~= pairs);
            Json::Object(out)
        },
    }
}

/// The `serde_json::Value` that holds a document.
fn value_of(doc: &Json) -> (r: serde_json::Value)
    ensures
        value_doc(r) == doc@,
    decreases doc,
{
    match doc {
        Json::Null => json_value(Node::Null),
        Json::Bool(b) => json_value(Node::Bool(*b)),
        Json::Number(n) => json_value(Node::Number(copy_number(n))),
        Json::String(s) => json_value(Node::String(s.clone())),
        Json::Array(items) => {
            let mut out: Vec<serde_json::Value> = Vec::new();
            let mut i: usize = 0;
            while i < items.len()
                invariant
                    doc is Array,
                    doc->Array_0 == *items,
                    i <= items.len(),
                    out.len() == i,
                    forall|j: int| 0 <= j < i ==> value_doc(#[trigger] out[j]) == items[j]@,
                decreases items.len() - i,
            {
                proof {
                    vstd::std_specs::vec::axiom_vec_index_decreases(*items, i as int);
                    assert(decreases_to!(doc => doc->Array_0[i as int]));
                }
                out.push(value_of(&items[i]));
                i += 1;
            }
            assert(json_node_doc(Node::Array(out))->Array_0 =~= item_views(items@));
            json_value(Node::Array(out))
        },
        Json::Object(members) => {
            let mut out: Vec<(String, serde_json::Value)> = Vec::new();
            let mut i: usize = 0;
            while i < members.len()
                invariant
                    doc is Object,
                    doc->Object_0 == *members,
                    i <= members.len(),
                    out.len() == i,
                    forall|j: int|
                        0 <= j < i ==> (#[trigger] out[j]).0@ == members[j].0@ && value_doc(out[j].1)
                            == members[j].1@,
                decreases members.len() - i,
            {
                proof {
                    vstd::std_specs::vec::axiom_vec_index_decreases(*members, i as int);
                    assert(decreases_to!(doc => doc->Object_0[i as int].1));
                }
                out.push((members[i].0.clone(), value_of(&members[i].1)));
                i += 1;
            }
            assert(Seq::new(out.len() as nat, |i: int| (out[i].0@, value_doc(out[i].1)))
                =~= member_views(members@));
            json_value(Node::Object(out))
        },
    }
}

/// `serde_json::to_string`, for a `serde_json::Value`: the text named
/// `json_text` of the document that the value holds.
#[verifier::external_body]
fn print_value(value: &serde_json::Value) -> (r: Option<String>)
    ensures
        r is Some == json_text(value_doc(*value)) is Some,
        r matches Some(t) ==> json_text(value_doc(*value)) == Some(t@),
{
    serde_json::to_string(value).ok()
}

/// `serde_json::to_string_pretty`, for a `serde_json::Value`: the text
/// named `json_text_pretty` of the document that the value holds.
#[verifier::external_body]
fn print_value_pretty(value: &serde_json::Value) -> (r: Option<String>)
    ensures
        r is Some == json_text_pretty(value_doc(*value)) is Some,
        r matches Some(t) ==> json_text_pretty(value_doc(*value)) == Some(t@),
{
    serde_json::to_string_pretty(value).ok()
}

/// The `toml::Value` that holds a document, where TOML can hold it.
fn table_of(doc: &Json) -> (r: Option<toml::Value>)
    ensures
        r is Some == toml_representable(doc@),
        r matches Some(v) ==> table_doc(v) == doc@,
    decreases doc,
{
    match doc {
        Json::Null => toml_value(Node::Null),
        Json::Bool(b) => toml_value(Node::Bool(*b)),
        Json::Number(n) => toml_value(Node::Number(copy_number(n))),
        Json::String(s) => toml_value(Node::String(s.clone())),
        Json::Array(items) => {
            let mut out: Vec<toml::Value> = Vec::new();
            let mut i: usize = 0;
            while i < items.len()
                invariant
                    doc is Array,
                    doc->Array_0 == *items,
                    i <= items.len(),
                    out.len() == i,
                    forall|j: int|
                        0 <= j < i ==> toml_representable(items[j]@) && table_doc(#[trigger] out[j])
                            == items[j]@,
                decreases items.len() - i,
            {
                proof {
                    vstd::std_specs::vec::axiom_vec_index_decreases(*items, i as int);
                    assert(decreases_to!(doc => doc->Array_0[i as int]));
                }
                match table_of(&items[i]) {
                    Some(value) => {
                        out.push(value);
                    },
                    None => {
                        assert(item_views(items@)[i as int] == items[i as int]@);
                        assert(doc@ == JsonView::Array(item_views(items@)));
                        assert(!toml_representable(doc@->Array_0[i as int]));
                        return None;
                    },
                }
                i += 1;
            }
            proof {
                assert(toml_node_doc(Node::Array(out))->Array_0 =~= item_views(items@));
                assert forall|j: int| 0 <= j < item_views(items@).len() implies toml_representable(
                    #[trigger] item_views(items@)[j],
                ) by {
                    assert(table_doc(out[j]) == items[j]@);
                }
            }
            toml_value(Node::Array(out))
        },
        Json::Object(members) => {
            let ghost all = member_map(members@);
            let mut out: Vec<(String, toml::Value)> = Vec::new();
            let mut i: usize = 0;
            while i < members.len()
                invariant
                    doc is Object,
                    doc->Object_0 == *members,
                    all == member_map(members@),
                    i <= members.len(),
                    out.len() == i,
                    forall|j: int|
                        0 <= j < i ==> (#[trigger] out[j]).0@ == members[j].0@ && all.contains_key(
                            members[j].0@,
                        ) && toml_representable(all[members[j].0@]) && table_doc(out[j].1)
                            == all[members[j].0@],
                decreases members.len() - i,
            {
                let key = &members[i].0;
                proof {
                    assert(member_views(members@)[i as int].0 == key@);
                    lemma_to_map_contains(member_views(members@), key@);
                }
                let found = position(members, key.as_str());
                let counts = match found {
                    Some(at) => at,
                    None => {
                        proof {
                            assert(keys_of(members@)[i as int] == key@);
                        }
                        i
                    },
                };
                proof {
                    let mv = member_views(members@);
                    assert(keys_of(members@) =~= Seq::new(mv.len(), |i: int| mv[i].0));
                    assert(is_last_entry(keys_of(members@), key@, counts as int));
                    assert forall|j: int| counts < j < mv.len() implies mv[j].0 != key@ by {
                        assert(keys_of(members@)[j] != key@);
                    }
                    assert(keys_of(members@)[counts as int] == key@);
                    lemma_to_map_found(mv, key@, counts as int);
                    vstd::std_specs::vec::axiom_vec_index_decreases(*members, counts as int);
                    assert(decreases_to!(doc => doc->Object_0[counts as int].1));
                }
                match table_of(&members[counts].1) {
                    Some(value) => {
                        out.push((key.clone(), value));
                    },
                    None => {
                        assert(all.contains_key(key@) && !toml_representable(all[key@]));
                        return None;
                    },
                }
                i += 1;
            }
            proof {
                let pairs = Seq::new(out.len() as nat, |i: int| (out[i].0@, table_doc(out[i].1)));
                let mv = member_views(members@);
                lemma_to_map_finite(mv);
                assert forall|k: Seq<char>| all.contains_key(k) implies toml_representable(
                    #[trigger] all[k],
                ) by {
                    lemma_to_map_contains(mv, k);
                    let j = choose|j: int| 0 <= j < mv.len() && mv[j].0 == k;
                    assert(out[j].0@ == members[j].0@);
                }
                assert forall|k: Seq<char>| to_map(pairs).contains_key(k) == all.contains_key(k) by {
                    lemma_to_map_contains(mv, k);
                    lemma_to_map_contains(pairs, k);
                    if to_map(pairs).contains_key(k) {
                        let j = choose|j: int| 0 <= j < pairs.len() && pairs[j].0 == k;
                        assert(out[j].0@ == members[j].0@);
                        assert(mv[j].0 == k);
                    }
                    if all.contains_key(k) {
                        let j = choose|j: int| 0 <= j < mv.len() && mv[j].0 == k;
                        assert(out[j].0@ == members[j].0@);
                        assert(pairs[j].0 == k);
                    }
                }
                assert forall|k: Seq<char>| to_map(pairs).contains_key(k) implies to_map(pairs)[k]
                    == all[k] by {
                    lemma_to_map_value(pairs, k);
                    let j = choose|j: int|
                        0 <= j < pairs.len() && pairs[j].0 == k && pairs[j].1 == to_map(pairs)[k];
                    assert(out[j].0@ == members[j].0@);
                }
                assert(to_map(pairs) =~= all);
            }
            toml_value(Node::Object(out))
        },
    }
}

/// `toml::to_string`, for a `toml::Value`: the text named `toml_text` of
/// the document that the value holds.
#[verifier::external_body]
fn print_table(value: &toml::Value) -> (r: Option<String>)
    ensures
        r is Some == toml_text(table_doc(*value)) is Some,
        r matches Some(t) ==> toml_text(table_doc(*value)) == Some(t@),
{
    toml::to_string(value).ok()
}

/// Reads a document from JSON text; where the text is no JSON, the error
/// is the parser's message.
pub fn parse_document(text: &str) -> (r: Result<Json, String>)
    ensures
        r is Ok == parsed_json(text@) is Some,
        r matches Ok(doc) ==> parsed_json(text@) == Some(doc@),
{
    match parse_value(text) {
        Ok(value) => Ok(document_of(&value)),
        Err(message) => Err(message),
    }
}

/// Writes a document as JSON text.
pub fn document_text(doc: &Json) -> (r: Option<String>)
    ensures
        r is Some == json_text(doc@) is Some,
        r matches Some(t) ==> json_text(doc@) == Some(t@),
{
    let value = value_of(doc);
    print_value(&value)
}

/// Writes a document as JSON text over several indented lines.
pub fn document_text_pretty(doc: &Json) -> (r: Option<String>)
    ensures
        r is Some == json_text_pretty(doc@) is Some,
        r matches Some(t) ==> json_text_pretty(doc@) == Some(t@),
{
    let value = value_of(doc);
    print_value_pretty(&value)
}

/// Writes a document as TOML text, where TOML can hold it.
pub fn table_text(doc: &Json) -> (r: Option<String>)
    ensures
        r is Some == (toml_representable(doc@) && toml_text(doc@) is Some),
        r matches Some(t) ==> toml_text(doc@) == Some(t@),
{
    match table_of(doc) {
        Some(value) => print_table(&value),
        None => None,
    }
}

} // verus!
