//! Splitting, trimming and joining text, and lists of strings without
//! repetition.

use vstd::prelude::*;
use crate::text::{chars_of, str_eq, string_of};
use crate::views::views;

verus! {

/// Whether a character is white space: one of the code points that
/// Unicode gives the property `White_Space`.
pub open spec fn white_space(c: char) -> bool {
    let p = c as u32;
    ||| 0x09 <= p <= 0x0D
    ||| p == 0x20
    ||| p == 0x85
    ||| p == 0xA0
    ||| p == 0x1680
    ||| 0x2000 <= p <= 0x200A
    ||| p == 0x2028
    ||| p == 0x2029
    ||| p == 0x202F
    ||| p == 0x205F
    ||| p == 0x3000
}

/// `char::is_whitespace`: whether the character has the property
/// `White_Space`.
#[verifier::external_body]
fn is_white_space(c: char) -> (r: bool)
    ensures
        r == white_space(c),
{
    c.is_whitespace()
}

/// The pieces of a text between the occurrences of a separator. There is
/// one piece more than there are separators; a piece may be empty.
pub open spec fn split(s: Seq<char>, separator: char) -> Seq<Seq<char>>
    decreases s.len(),
{
    if s.len() == 0 {
        seq![Seq::empty()]
    } else {
        let front = split(s.drop_last(), separator);
        if s.last() == separator {
            front.push(Seq::empty())
        } else {
            front.update(front.len() - 1, front.last().push(s.last()))
        }
    }
}

/// A split has at least one piece.
pub proof fn lemma_split_len(s: Seq<char>, separator: char)
    ensures
        split(s, separator).len() >= 1,
    decreases s.len(),
{
    if s.len() > 0 {
        lemma_split_len(s.drop_last(), separator);
    }
}

/// The pieces of a text between the occurrences of a separator.
pub fn split_text(s: &str, separator: char) -> (r: Vec<String>)
    ensures
        views(r@) == split(s@, separator),
{
    let chars = chars_of(s);
    let mut pieces: Vec<String> = Vec::new();
    let mut piece: Vec<char> = Vec::new();
    let mut i: usize = 0;
    assert(chars@.take(0) =~= Seq::empty());
    assert(views(pieces@).push(piece@) =~= seq![Seq::<char>::empty()]);
    while i < chars.len()
        invariant
            i <= chars.len(),
            views(pieces@).push(piece@) == split(chars@.take(i as int), separator),
        decreases chars.len() - i,
    {
        let ghost seen = chars@.take(i as int);
        let ghost before = views(pieces@).push(piece@);
        proof {
            assert(chars@.take(i + 1).drop_last() =~= seen);
            assert(chars@.take(i + 1).last() == chars[i as int]);
            lemma_split_len(seen, separator);
        }
        if chars[i] == separator {
            pieces.push(string_of(&piece));
            piece = Vec::new();
            assert(views(pieces@).push(piece@) =~= before.push(Seq::empty()));
        } else {
            piece.push(chars[i]);
            assert(views(pieces@).push(piece@) =~= before.update(
                before.len() - 1,
                before.last().push(chars[i as int]),
            ));
        }
        i += 1;
    }
    assert(chars@.take(chars.len() as int) =~= chars@);
    let ghost before = views(pieces@).push(piece@);
    pieces.push(string_of(&piece));
    assert(views(pieces@) =~= before);
    pieces
}

/// A text without the white space at its start.
pub open spec fn trimmed_start(s: Seq<char>) -> Seq<char>
    decreases s.len(),
{
    if s.len() > 0 && white_space(s[0]) {
        trimmed_start(s.skip(1))
    } else {
        s
    }
}

/// A text without the white space at its end.
pub open spec fn trimmed_end(s: Seq<char>) -> Seq<char>
    decreases s.len(),
{
    if s.len() > 0 && white_space(s.last()) {
        trimmed_end(s.drop_last())
    } else {
        s
    }
}

/// A text without the white space at its start and at its end.
pub open spec fn trimmed(s: Seq<char>) -> Seq<char> {
    trimmed_end(trimmed_start(s))
}

/// A text without the white space at its start and at its end.
pub fn trim_text(s: &str) -> (r: String)
    ensures
        r@ == trimmed(s@),
{
    let chars = chars_of(s);
    let mut start: usize = 0;
    assert(chars@.skip(0) =~= chars@);
    while start < chars.len() && is_white_space(chars[start])
        invariant
            start <= chars.len(),
            trimmed_start(chars@) == trimmed_start(chars@.skip(start as int)),
        decreases chars.len() - start,
    {
        assert(chars@.skip(start as int).skip(1) =~= chars@.skip(start + 1));
        start += 1;
    }
    let mut end: usize = chars.len();
    let ghost rest = chars@.skip(start as int);
    assert(trimmed_start(chars@) == rest);
    assert(rest.take(rest.len() as int) =~= rest);
    while end > start && is_white_space(chars[end - 1])
        invariant
            start <= end <= chars.len(),
            rest == chars@.skip(start as int),
            trimmed_end(rest) == trimmed_end(rest.take(end - start)),
        decreases end,
    {
        assert(rest.take(end - start).drop_last() =~= rest.take(end - start - 1));
        end -= 1;
    }
    let mut out: Vec<char> = Vec::new();
    let mut i: usize = start;
    assert(rest.take(0) =~= Seq::empty());
    while i < end
        invariant
            start <= i <= end <= chars.len(),
            rest == chars@.skip(start as int),
            out@ == rest.take(i - start),
        decreases end - i,
    {
        out.push(chars[i]);
        i += 1;
        assert(out@ =~= rest.take(i - start));
    }
    string_of(&out)
}

/// The first word of each line of a text: the line is trimmed, and what
/// stands before its first blank is its first word.
pub open spec fn first_words(text: Seq<char>) -> Seq<Seq<char>> {
    let lines = split(text, '\n');
    Seq::new(lines.len(), |i: int| split(trimmed(lines[i]), ' ')[0])
}

/// The first word of each line of a text.
pub fn first_words_of(text: &str) -> (r: Vec<String>)
    ensures
        views(r@) == first_words(text@),
{
    let lines = split_text(text, '\n');
    let mut out: Vec<String> = Vec::new();
    let mut i: usize = 0;
    while i < lines.len()
        invariant
            i <= lines.len(),
            out.len() == i,
            views(lines@) == split(text@, '\n'),
            forall|j: int|
                0 <= j < i ==> (#[trigger] out[j])@ == split(trimmed(views(lines@)[j]), ' ')[0],
        decreases lines.len() - i,
    {
        let line = trim_text(lines[i].as_str());
        let mut words = split_text(line.as_str(), ' ');
        proof {
            lemma_split_len(line@, ' ');
            assert(views(words@)[0] == words[0]@);
            assert(views(lines@)[i as int] == lines[i as int]@);
        }
        let word = words.swap_remove(0);
        out.push(word);
        i += 1;
    }
    assert(views(out@) =~= first_words(text@));
    out
}

/// Whether a list of strings holds a text.
pub fn contains_text(items: &Vec<String>, text: &str) -> (r: bool)
    ensures
        r == views(items@).contains(text@),
{
    let mut i: usize = 0;
    while i < items.len()
        invariant
            i <= items.len(),
            forall|j: int| 0 <= j < i ==> views(items@)[j] != text@,
        decreases items.len() - i,
    {
        if str_eq(items[i].as_str(), text) {
            assert(views(items@)[i as int] == text@);
            return true;
        }
        i += 1;
    }
    false
}

/// The texts of a list, each once, in the order in which they first occur.
pub open spec fn distinct(s: Seq<Seq<char>>) -> Seq<Seq<char>>
    decreases s.len(),
{
    if s.len() == 0 {
        s
    } else {
        let front = distinct(s.drop_last());
        if front.contains(s.last()) {
            front
        } else {
            front.push(s.last())
        }
    }
}

/// A list without repetition holds what the list that it was made of
/// holds.
pub proof fn lemma_distinct_contains(s: Seq<Seq<char>>, x: Seq<char>)
    ensures
        distinct(s).contains(x) <==> s.contains(x),
    decreases s.len(),
{
    if s.len() > 0 {
        let front = distinct(s.drop_last());
        lemma_distinct_contains(s.drop_last(), x);
        if distinct(s).contains(x) {
            if front.contains(x) {
                let j = choose|j: int| 0 <= j < s.drop_last().len() && s.drop_last()[j] == x;
                assert(s[j] == x);
            } else {
                let j = choose|j: int| 0 <= j < distinct(s).len() && distinct(s)[j] == x;
                if j < front.len() {
                    assert(front[j] == x);
                }
                assert(s[s.len() - 1] == x);
            }
        }
        if s.contains(x) {
            let j = choose|j: int| 0 <= j < s.len() && s[j] == x;
            if j < s.len() - 1 {
                assert(s.drop_last()[j] == x);
            }
            if front.contains(x) {
                let k = choose|k: int| 0 <= k < front.len() && front[k] == x;
                assert(distinct(s)[k] == x);
            } else {
                assert(distinct(s)[front.len() as int] == x);
            }
        }
    }
}

/// A list without repetition holds nothing twice.
pub proof fn lemma_distinct_once(s: Seq<Seq<char>>)
    ensures
        distinct(s).no_duplicates(),
    decreases s.len(),
{
    if s.len() > 0 {
        lemma_distinct_once(s.drop_last());
    }
}

/// The strings of a list, each once, in the order in which they first
/// occur.
pub fn distinct_texts(items: &Vec<String>) -> (r: Vec<String>)
    ensures
        views(r@) == distinct(views(items@)),
{
    let mut out: Vec<String> = Vec::new();
    let mut i: usize = 0;
    assert(views(items@).take(0) =~= Seq::empty());
    assert(views(out@) =~= Seq::empty());
    while i < items.len()
        invariant
            i <= items.len(),
            views(out@) == distinct(views(items@).take(i as int)),
        decreases items.len() - i,
    {
        let ghost before = views(out@);
        proof {
            assert(views(items@).take(i + 1).drop_last() =~= views(items@).take(i as int));
            assert(views(items@).take(i + 1).last() == items[i as int]@);
        }
        if !contains_text(&out, items[i].as_str()) {
            out.push(items[i].clone());
            assert(views(out@) =~= before.push(items[i as int]@));
        }
        i += 1;
    }
    assert(views(items@).take(items.len() as int) =~= views(items@));
    out
}

/// The texts of a list in one text, with a separator between each two.
pub open spec fn joined(s: Seq<Seq<char>>, separator: Seq<char>) -> Seq<char>
    decreases s.len(),
{
    if s.len() == 0 {
        Seq::empty()
    } else if s.len() == 1 {
        s[0]
    } else {
        joined(s.drop_last(), separator) + separator + s.last()
    }
}

/// The strings of a list in one string, with a separator between each two.
pub fn join(items: &Vec<String>, separator: &str) -> (r: String)
    ensures
        r@ == joined(views(items@), separator@),
{
    let mut out = String::new();
    let mut i: usize = 0;
    assert(views(items@).take(0) =~= Seq::empty());
    while i < items.len()
        invariant
            i <= items.len(),
            out@ == joined(views(items@).take(i as int), separator@),
        decreases items.len() - i,
    {
        proof {
            assert(views(items@).take(i + 1).drop_last() =~= views(items@).take(i as int));
            assert(views(items@).take(i + 1).last() == items[i as int]@);
        }
        if i > 0 {
            out.append(separator);
        } else {
            assert(out@ + items[i as int]@ =~= items[i as int]@);
            assert(views(items@).take(1)[0] == items[i as int]@);
        }
        out.append(items[i].as_str());
        i += 1;
    }
    assert(views(items@).take(items.len() as int) =~= views(items@));
    out
}

/// The strings of a set in one string, with `join` between each two. The
/// set is a list that holds nothing twice; its strings come in the order
/// of the list.
pub fn join_hash_set_of_strings(hash_set: &Vec<String>, join: &str) -> (r: String)
    ensures
        r@ == joined(views(hash_set@), join@),
{
    self::join(hash_set, join)
}

/// The texts of a list, one after the other, in one text.
pub open spec fn glued(s: Seq<Seq<char>>) -> Seq<char>
    decreases s.len(),
{
    if s.len() == 0 {
        Seq::empty()
    } else {
        glued(s.drop_last()) + s.last()
    }
}

/// The strings of a list, one after the other, in one string.
pub fn glue(items: &Vec<&str>) -> (r: String)
    ensures
        r@ == glued(Seq::new(items.len() as nat, |i: int| items[i]@)),
{
    let ghost all = Seq::new(items.len() as nat, |i: int| items[i]@);
    let mut out = String::new();
    let mut i: usize = 0;
    assert(all.take(0) =~= Seq::empty());
    while i < items.len()
        invariant
            i <= items.len(),
            all == Seq::new(items.len() as nat, |i: int| items[i]@),
            out@ == glued(all.take(i as int)),
        decreases items.len() - i,
    {
        proof {
            assert(all.take(i + 1).drop_last() =~= all.take(i as int));
            assert(all.take(i + 1).last() == items[i as int]@);
        }
        out.append(items[i]);
        i += 1;
    }
    assert(all.take(items.len() as int) =~= all);
    out
}

} // verus!
