//! Merging several source documents into one.
//!
//! Two objects merge member by member; anything else is replaced by the
//! later document, arrays and `null` included.

use vstd::prelude::*;
use crate::assoc::lemma_to_map_finite;
use crate::json::{
    get_member, item_views, lemma_member_map_push, member_map, member_views, set_member, Json,
    JsonView,
};

verus! {

/// The merge of `patch` into `base`. Two objects give the object that has
/// the members of both, a member of both being merged in turn; in every
/// other case the result is `patch`.
pub open spec fn merged(base: JsonView, patch: JsonView) -> JsonView
    decreases patch,
{
    match (base, patch) {
        (JsonView::Object(b), JsonView::Object(p)) => JsonView::Object(merged_members(b, p)),
        _ => patch,
    }
}

/// The members of the merge of two objects. (An object of a document has
/// finitely many members.)
pub open spec fn merged_members(
    b: Map<Seq<char>, JsonView>,
    p: Map<Seq<char>, JsonView>,
) -> Map<Seq<char>, JsonView>
    decreases p,
{
    Map::new(
        |k: Seq<char>| b.contains_key(k) || p.contains_key(k),
        |k: Seq<char>|
            if p.contains_key(k) {
                if b.contains_key(k) && p.dom().finite() {
                    merged(b[k], p[k])
                } else {
                    p[k]
                }
            } else {
                b[k]
            },
    )
}

/// The merge of a list of documents: the first is the base, and the others
/// are merged into it from left to right.
pub open spec fn merged_all(docs: Seq<JsonView>) -> JsonView
    decreases docs.len(),
{
    if docs.len() <= 1 {
        docs[0]
    } else {
        merged(merged_all(docs.drop_last()), docs.last())
    }
}

/// What one more member of the later object does to the merge.
proof fn lemma_merged_members_insert(
    b: Map<Seq<char>, JsonView>,
    p: Map<Seq<char>, JsonView>,
    key: Seq<char>,
    value: JsonView,
)
    requires
        p.dom().finite(),
    ensures
        merged_members(b, p.insert(key, value)) == merged_members(b, p).insert(
            key,
            if b.contains_key(key) {
                merged(b[key], value)
            } else {
                value
            },
        ),
{
    assert(p.insert(key, value).dom().finite());
    assert(merged_members(b, p.insert(key, value)) =~= merged_members(b, p).insert(
        key,
        if b.contains_key(key) {
            merged(b[key], value)
        } else {
            value
        },
    ));
}

/// Merging one document alone gives that document.
pub proof fn lemma_merge_single(doc: JsonView)
    ensures
        merged_all(seq![doc]) == doc,
{
}

/// Documents are merged from left to right: to merge a list with one more
/// document at its end is to merge that document into the merge of the
/// list.
pub proof fn lemma_merge_left_to_right(docs: Seq<JsonView>, last: JsonView)
    requires
        docs.len() > 0,
    ensures
        merged_all(docs.push(last)) == merged(merged_all(docs), last),
{
    assert(docs.push(last).drop_last() =~= docs);
}

/// A document that is no object replaces whatever it is merged into.
pub proof fn lemma_merge_replaces(base: JsonView, patch: JsonView)
    requires
        !(patch is Object) || !(base is Object),
    ensures
        merged(base, patch) == patch,
{
}

/// The members of the merge of two objects of documents: those of either,
/// a member of both being merged in turn.
pub proof fn lemma_merge_members(base: JsonView, patch: JsonView, key: Seq<char>)
    requires
        base is Object,
        patch is Object,
        patch->Object_0.dom().finite(),
    ensures
        merged(base, patch) is Object,
        merged(base, patch)->Object_0.contains_key(key) == (base->Object_0.contains_key(key)
            || patch->Object_0.contains_key(key)),
        patch->Object_0.contains_key(key) && base->Object_0.contains_key(key) ==> merged(
            base,
            patch,
        )->Object_0[key] == merged(base->Object_0[key], patch->Object_0[key]),
        patch->Object_0.contains_key(key) && !base->Object_0.contains_key(key) ==> merged(
            base,
            patch,
        )->Object_0[key] == patch->Object_0[key],
        !patch->Object_0.contains_key(key) && base->Object_0.contains_key(key) ==> merged(
            base,
            patch,
        )->Object_0[key] == base->Object_0[key],
{
}

/// The merge of `patch` into `base`, as a new document.
pub fn merge_pair(base: &Json, patch: &Json) -> (r: Json)
    ensures
        r@ == merged(base@, patch@),
    decreases patch,
{
    match patch {
        Json::Object(later) => match base {
            Json::Object(earlier) => match base.duplicate() {
                Json::Object(copy) => {
                    let mut out = copy;
                    let mut j: usize = 0;
                    proof {
                        assert(later@.take(0) =~= Seq::<(String, Json)>::empty());
                        assert(member_views(later@.take(0)) =~= Seq::empty());
                        assert(merged_members(member_map(earlier@), Map::empty()) =~= member_map(
                            earlier@,
                        ));
                    }
                    while j < later.len()
                        invariant
                            patch is Object,
                            patch->Object_0 == *later,
                            j <= later.len(),
                            member_map(out@) == merged_members(
                                member_map(earlier@),
                                member_map(later@.take(j as int)),
                            ),
                        decreases later.len() - j,
                    {
                        let key = &later[j].0;
                        let value = &later[j].1;
                        proof {
                            vstd::std_specs::vec::axiom_vec_index_decreases(*later, j as int);
                            assert(decreases_to!(patch => patch->Object_0[j as int].1));
                        }
                        let member = match get_member(earlier, key.as_str()) {
                            Some(old) => merge_pair(old, value),
                            None => value.duplicate(),
                        };
                        proof {
                            let seen = later@.take(j as int);
                            assert(later@.take(j + 1) =~= seen.push(later@[j as int]));
                            lemma_member_map_push(seen, later@[j as int].0, later@[j as int].1);
                            lemma_to_map_finite(member_views(seen));
                            lemma_merged_members_insert(
                                member_map(earlier@),
                                member_map(seen),
                                key@,
                                value@,
                            );
                        }
                        set_member(&mut out, key.clone(), member);
                        j += 1;
                    }
                    assert(later@.take(later.len() as int) =~= later@);
                    Json::Object(out)
                },
                _ => patch.duplicate(),
            },
            _ => patch.duplicate(),
        },
        _ => patch.duplicate(),
    }
}

/// Merges `patch` into `doc`.
pub fn merge(doc: &mut Json, patch: &Json)
    ensures
        final(doc)@ == merged(old(doc)@, patch@),
{
    let r = merge_pair(doc, patch);
    *doc = r;
}

/// The merge of all of `docs`: the first is the base, and each of the
/// others is merged into the result so far.
pub fn merge_documents(docs: &Vec<Json>) -> (r: Json)
    requires
        docs.len() > 0,
    ensures
        r@ == merged_all(item_views(docs@)),
{
    let mut out = docs[0].duplicate();
    let mut i: usize = 1;
    proof {
        assert(item_views(docs@).take(1) =~= seq![docs[0]@]);
    }
    while i < docs.len()
        invariant
            1 <= i <= docs.len(),
            out@ == merged_all(item_views(docs@).take(i as int)),
        decreases docs.len() - i,
    {
        proof {
            let seen = item_views(docs@).take(i as int);
            assert(item_views(docs@).take(i + 1) =~= seen.push(docs[i as int]@));
            lemma_merge_left_to_right(seen, docs[i as int]@);
        }
        merge(&mut out, &docs[i]);
        i += 1;
    }
    assert(item_views(docs@).take(docs.len() as int) =~= item_views(docs@));
    out
}

} // verus!
