//! Character-level text operations: copying, filtering, searching and the
//! decimal rendering of integers.
//!
//! Everything here is stated over `Seq<char>`, the view of `str` and `String`.

use vstd::prelude::*;
use vstd::string::StringExecFns;

verus! {

/// Appends one character to `text`.
///
/// Trusted: the body is `String::push`, which the standard library documents
/// as appending the given `char` to the end of the string.
#[verifier::external_body]
pub(crate) fn push_char(text: &mut String, c: char)
    ensures
        final(text)@ == old(text)@.push(c),
{
    text.push(c);
}

/// The characters that `{:?}` formatting produces for a string: the text in
/// double quotes, with the escapes that the standard library applies.
pub uninterp spec fn quoted(text: Seq<char>) -> Seq<char>;

/// Renders `text` the way `{:?}` does.
///
/// Trusted: the body is the standard library's `Debug` formatting of `str`.
/// Nothing is claimed of the result beyond it being a function of the
/// characters of `text`, which [`quoted`] names.
#[verifier::external_body]
pub(crate) fn quote(text: &str) -> (out: String)
    ensures
        out@ == quoted(text@),
{
    format!("{:?}", text)
}

/// The characters of `text`, one element each.
pub fn to_chars(text: &str) -> (out: Vec<char>)
    ensures
        out@ == text@,
{
    broadcast use vstd::string::group_string_axioms;

    let mut out: Vec<char> = Vec::new();
    for c in it: text.chars()
        invariant
            it.seq() == text@,
            out@ == it.seq().take(it.index() as int),
    {
        out.push(c);
        assert(it.seq().take(it.index() + 1) =~= it.seq().take(it.index() as int).push(c));
    }
    assert(text@.take(text@.len() as int) =~= text@);
    out
}

/// `text` with every occurrence of `from` exchanged for `to`.
pub open spec fn replaced(text: Seq<char>, from: char, to: char) -> Seq<char> {
    Seq::new(
        text.len(),
        |i: int|
            if text[i] == from {
                to
            } else {
                text[i]
            },
    )
}

/// Appends `text` to `out`, exchanging every `from` for `to` on the way.
pub fn append_replaced(out: &mut String, text: &str, from: char, to: char)
    ensures
        final(out)@ == old(out)@ + replaced(text@, from, to),
{
    broadcast use vstd::string::group_string_axioms;

    let ghost before = out@;
    assert(out@ =~= before + replaced(text@.take(0), from, to));
    for c in it: text.chars()
        invariant
            it.seq() == text@,
            out@ == before + replaced(text@.take(it.index() as int), from, to),
    {
        if c == from {
            push_char(out, to);
        } else {
            push_char(out, c);
        }
        assert(out@ =~= before + replaced(text@.take(it.index() + 1), from, to));
    }
    assert(text@.take(text@.len() as int) =~= text@);
}

/// `text` without the characters equal to `banned`, the rest in order.
pub open spec fn without(text: Seq<char>, banned: char) -> Seq<char> {
    text.filter(|c: char| c != banned)
}

/// Copies `text`, leaving out every character equal to `banned`.
pub fn strip_char(text: &str, banned: char) -> (out: String)
    ensures
        out@ == without(text@, banned),
{
    broadcast use vstd::string::group_string_axioms;

    let mut out = String::new();
    proof {
        reveal(Seq::filter);
        assert(text@.take(0).len() == 0);
    }
    for c in it: text.chars()
        invariant
            it.seq() == text@,
            out@ == without(text@.take(it.index() as int), banned),
    {
        proof {
            let next = text@.take(it.index() + 1);
            reveal(Seq::filter);
            assert(next.drop_last() =~= text@.take(it.index() as int));
            assert(next.last() == c);
        }
        if c != banned {
            push_char(&mut out, c);
        }
    }
    assert(text@.take(text@.len() as int) =~= text@);
    out
}

/// Whether `needle` stands in `hay` starting at index `at`.
pub open spec fn occurs_at(hay: Seq<char>, needle: Seq<char>, at: int) -> bool {
    &&& 0 <= at
    &&& at + needle.len() <= hay.len()
    &&& hay.subrange(at, at + needle.len()) == needle
}

/// Whether `needle` is a contiguous part of `hay`.
pub open spec fn has_part(hay: Seq<char>, needle: Seq<char>) -> bool {
    exists|at: int| occurs_at(hay, needle, at)
}

/// Compares `needle` with the characters of `hay` that start at `at`.
fn matches_at(hay: &Vec<char>, needle: &Vec<char>, at: usize) -> (found: bool)
    requires
        at + needle.len() <= hay.len(),
    ensures
        found == occurs_at(hay@, needle@, at as int),
{
    let mut k: usize = 0;
    while k < needle.len()
        invariant
            k <= needle.len(),
            at + needle.len() <= hay.len(),
            forall|j: int| 0 <= j < k ==> hay@[at + j] == needle@[j],
        decreases needle.len() - k,
    {
        if hay[at + k] != needle[k] {
            assert(hay@.subrange(at as int, at + needle@.len())[k as int] != needle@[k as int]);
            return false;
        }
        k += 1;
    }
    assert(hay@.subrange(at as int, at + needle@.len()) =~= needle@);
    true
}

/// Tells whether `needle` is a contiguous part of `hay`; the empty text is a
/// part of every text.
pub fn contains(hay: &str, needle: &str) -> (found: bool)
    ensures
        found == has_part(hay@, needle@),
{
    let hay_chars = to_chars(hay);
    let needle_chars = to_chars(needle);
    if needle_chars.len() == 0 {
        assert(hay@.subrange(0, 0) =~= needle@);
        assert(occurs_at(hay@, needle@, 0));
        return true;
    }
    if needle_chars.len() > hay_chars.len() {
        return false;
    }
    let last: usize = hay_chars.len() - needle_chars.len();
    let mut at: usize = 0;
    while at <= last
        invariant
            hay_chars@ == hay@,
            needle_chars@ == needle@,
            last + needle_chars.len() == hay_chars.len(),
            needle_chars.len() >= 1,
            at <= last + 1,
            forall|j: int| 0 <= j < at ==> !occurs_at(hay@, needle@, j),
        decreases last + 1 - at,
    {
        if matches_at(&hay_chars, &needle_chars, at) {
            return true;
        }
        at += 1;
    }
    false
}

} // verus!
