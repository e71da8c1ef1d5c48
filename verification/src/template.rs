//! Substitution of a named placeholder in the text of a document.
//!
//! A placeholder is the name between `{{` and `}}`. Every occurrence of the
//! placeholder of the bound name is replaced; all other text, placeholders
//! of other names included, stays as it is. A `{{` that no `}}` follows is
//! an error.

use vstd::prelude::*;
use crate::text::{chars_of, string_of};

verus! {

/// The name that the active environment is bound to.
pub open spec fn environment_name() -> Seq<char> {
    seq!['e', 'n', 'v', 'i', 'r', 'o', 'n', 'm', 'e', 'n', 't']
}

/// The placeholder of `name`: the name between the two delimiters.
pub open spec fn placeholder(name: Seq<char>) -> Seq<char> {
    seq!['{', '{'] + name + seq!['}', '}']
}

/// An opening delimiter stands at `i`.
pub open spec fn opens_at(text: Seq<char>, i: int) -> bool {
    0 <= i && i + 1 < text.len() && text[i] == '{' && text[i + 1] == '{'
}

/// A closing delimiter stands at `j`.
pub open spec fn closes_at(text: Seq<char>, j: int) -> bool {
    0 <= j && j + 1 < text.len() && text[j] == '}' && text[j + 1] == '}'
}

/// The opening delimiter at `i` has no closing delimiter behind it.
pub open spec fn unmatched_at(text: Seq<char>, i: int) -> bool {
    opens_at(text, i) && forall|j: int| i + 2 <= j ==> !closes_at(text, j)
}

/// Some opening delimiter has no closing delimiter behind it.
pub open spec fn malformed(text: Seq<char>) -> bool {
    exists|i: int| unmatched_at(text, i)
}

/// `text` with every occurrence of the placeholder of `name` replaced by
/// `value`, from left to right.
pub open spec fn rendered(text: Seq<char>, name: Seq<char>, value: Seq<char>) -> Seq<char>
    decreases text.len(),
{
    if text.len() == 0 {
        text
    } else if placeholder(name).is_prefix_of(text) {
        value + rendered(text.skip(placeholder(name).len() as int), name, value)
    } else {
        seq![text[0]] + rendered(text.skip(1), name, value)
    }
}

/// Why a template was refused.
#[derive(Debug, PartialEq, Eq, Clone, Copy)]
pub struct TemplateError {
    /// The place, in characters, of the last opening delimiter: none closes it.
    pub position: usize,
}

/// Whether `pattern` stands in `text` at `at`.
fn occurs_at(text: &Vec<char>, at: usize, pattern: &Vec<char>) -> (r: bool)
    requires
        at <= text.len(),
    ensures
        r == pattern@.is_prefix_of(text@.skip(at as int)),
{
    if pattern.len() > text.len() - at {
        return false;
    }
    let mut k: usize = 0;
    while k < pattern.len()
        invariant
            at <= text.len(),
            pattern.len() <= text.len() - at,
            k <= pattern.len(),
            forall|m: int| 0 <= m < k ==> pattern[m] == text[at + m],
        decreases pattern.len() - k,
    {
        if pattern[k] != text[at + k] {
            assert(text@.skip(at as int)[k as int] == text[at + k]);
            return false;
        }
        k += 1;
    }
    assert(pattern@ =~= text@.skip(at as int).subrange(0, pattern.len() as int));
    true
}

/// The place of the last opening delimiter that nothing closes, if the
/// text is malformed.
fn find_unmatched(text: &Vec<char>) -> (r: Option<usize>)
    ensures
        r is Some == malformed(text@),
        r matches Some(i) ==> unmatched_at(text@, i as int),
{
    let n = text.len();
    if n < 2 {
        assert(!malformed(text@));
        return None;
    }
    let mut open: Option<usize> = None;
    let mut close: Option<usize> = None;
    let mut i: usize = 0;
    while i < n - 1
        invariant
            n == text.len(),
            n >= 2,
            i <= n - 1,
            open matches Some(o) ==> o < i && opens_at(text@, o as int),
            close matches Some(c) ==> c < i && closes_at(text@, c as int),
            forall|j: int| 0 <= j < i && opens_at(text@, j) ==> open is Some && j <= open->0,
            forall|j: int| 0 <= j < i && closes_at(text@, j) ==> close is Some && j <= close->0,
        decreases n - i,
    {
        if text[i] == '{' && text[i + 1] == '{' {
            open = Some(i);
        }
        if text[i] == '}' && text[i + 1] == '}' {
            close = Some(i);
        }
        i += 1;
    }
    match open {
        None => {
            assert(!malformed(text@));
            None
        },
        Some(o) => {
            let closed = match close {
                Some(c) => c >= o + 2,
                None => false,
            };
            if closed {
                assert forall|k: int| !unmatched_at(text@, k) by {
                    if opens_at(text@, k) {
                        assert(k <= o);
                        assert(closes_at(text@, close->0 as int));
                    }
                }
                None
            } else {
                assert(unmatched_at(text@, o as int));
                Some(o)
            }
        },
    }
}

/// The placeholder of `name`, as characters.
fn placeholder_of(name: &Vec<char>) -> (r: Vec<char>)
    requires
        name.len() <= usize::MAX - 4,
    ensures
        r@ == placeholder(name@),
{
    let mut out: Vec<char> = Vec::new();
    out.push('{');
    out.push('{');
    let mut i: usize = 0;
    while i < name.len()
        invariant
            i <= name.len(),
            out@ == seq!['{', '{'] + name@.take(i as int),
        decreases name.len() - i,
    {
        out.push(name[i]);
        i += 1;
        assert(out@ =~= seq!['{', '{'] + name@.take(i as int));
    }
    out.push('}');
    out.push('}');
    assert(name@.take(name.len() as int) =~= name@);
    assert(out@ =~= placeholder(name@));
    out
}

/// Replaces every occurrence of the placeholder of `name` in `text` by
/// `value`.
pub fn render_chars(text: &Vec<char>, name: &Vec<char>, value: &Vec<char>) -> (r: Result<
    Vec<char>,
    TemplateError,
>)
    requires
        name.len() <= usize::MAX - 4,
    ensures
        r is Err == malformed(text@),
        r matches Err(e) ==> unmatched_at(text@, e.position as int),
        r matches Ok(out) ==> out@ == rendered(text@, name@, value@),
{
    match find_unmatched(text) {
        Some(position) => { return Err(TemplateError { position }); },
        None => {},
    }
    let pattern = placeholder_of(name);
    let mut out: Vec<char> = Vec::new();
    let mut i: usize = 0;
    proof {
        assert(text@.skip(0) =~= text@);
        assert(out@ + rendered(text@, name@, value@) =~= rendered(text@, name@, value@));
    }
    while i < text.len()
        invariant
            i <= text.len(),
            pattern@ == placeholder(name@),
            out@ + rendered(text@.skip(i as int), name@, value@) == rendered(
                text@,
                name@,
                value@,
            ),
        decreases text.len() - i,
    {
        let ghost rest = text@.skip(i as int);
        if occurs_at(text, i, &pattern) {
            let mut k: usize = 0;
            let ghost before = out@;
            while k < value.len()
                invariant
                    k <= value.len(),
                    out@ == before + value@.take(k as int),
                decreases value.len() - k,
            {
                out.push(value[k]);
                k += 1;
                assert(out@ =~= before + value@.take(k as int));
            }
            assert(value@.take(value.len() as int) =~= value@);
            assert(rest.skip(pattern.len() as int) =~= text@.skip(i + pattern.len()));
            assert(out@ + rendered(text@.skip(i + pattern.len()), name@, value@) =~= before
                + rendered(rest, name@, value@));
            i += pattern.len();
        } else {
            let ghost before = out@;
            out.push(text[i]);
            assert(rest.skip(1) =~= text@.skip(i + 1));
            assert(out@ + rendered(text@.skip(i + 1), name@, value@) =~= before + rendered(
                rest,
                name@,
                value@,
            ));
            i += 1;
        }
    }
    assert(out@ + Seq::<char>::empty() =~= out@);
    Ok(out)
}

/// Replaces every occurrence of the placeholder of `name` in `text` by
/// `value`.
pub fn render(text: &str, name: &str, value: &str) -> (r: Result<String, TemplateError>)
    requires
        name@.len() <= usize::MAX - 4,
    ensures
        r is Err == malformed(text@),
        r matches Err(e) ==> unmatched_at(text@, e.position as int),
        r matches Ok(out) ==> out@ == rendered(text@, name@, value@),
{
    let text_chars = chars_of(text);
    let name_chars = chars_of(name);
    let value_chars = chars_of(value);
    match render_chars(&text_chars, &name_chars, &value_chars) {
        Ok(out) => Ok(string_of(&out)),
        Err(e) => Err(e),
    }
}

/// Replaces every `{{environment}}` in `text` by the name of the active
/// environment.
pub fn render_environment(text: &str, environment: &str) -> (r: Result<String, TemplateError>)
    ensures
        r is Err == malformed(text@),
        r matches Err(e) ==> unmatched_at(text@, e.position as int),
        r matches Ok(out) ==> out@ == rendered(text@, environment_name(), environment@),
{
    proof {
        reveal_strlit("environment");
        assert("environment"@ =~= environment_name());
    }
    render(text, "environment", environment)
}

/// Text in which the placeholder of the name does not occur is rendered
/// as it is, whatever other placeholders it holds.
pub proof fn lemma_rendered_without_placeholder(text: Seq<char>, name: Seq<char>, value: Seq<char>)
    requires
        forall|i: int| 0 <= i <= text.len() ==> !placeholder(name).is_prefix_of(#[trigger] text.skip(i)),
    ensures
        rendered(text, name, value) == text,
    decreases text.len(),
{
    if text.len() > 0 {
        assert(text.skip(0) =~= text);
        let rest = text.skip(1);
        assert forall|i: int| 0 <= i <= rest.len() implies !placeholder(name).is_prefix_of(
            #[trigger] rest.skip(i),
        ) by {
            assert(rest.skip(i) =~= text.skip(i + 1));
        }
        lemma_rendered_without_placeholder(rest, name, value);
        assert(seq![text[0]] + rest =~= text);
    }
}

/// Text without an opening delimiter is rendered as it is.
pub proof fn lemma_rendered_plain(text: Seq<char>, name: Seq<char>, value: Seq<char>)
    requires
        forall|i: int| !opens_at(text, i),
    ensures
        rendered(text, name, value) == text,
{
    let p = placeholder(name);
    assert forall|i: int| 0 <= i <= text.len() implies !p.is_prefix_of(#[trigger] text.skip(i)) by {
        if p.is_prefix_of(text.skip(i)) {
            assert(text.skip(i)[0] == p[0] && text.skip(i)[1] == p[1]);
            assert(opens_at(text, i));
        }
    }
    lemma_rendered_without_placeholder(text, name, value);
}

/// Where the placeholder of the name stands at the start of a text, the
/// value stands at the start of what is rendered, and the rest is rendered
/// after it.
pub proof fn lemma_rendered_placeholder(rest: Seq<char>, name: Seq<char>, value: Seq<char>)
    ensures
        rendered(placeholder(name) + rest, name, value) == value + rendered(rest, name, value),
{
    let text = placeholder(name) + rest;
    assert(text.subrange(0, placeholder(name).len() as int) =~= placeholder(name));
    assert(text.skip(placeholder(name).len() as int) =~= rest);
}

} // verus!
