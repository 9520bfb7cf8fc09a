//! Strings as sequences of characters: comparison, joining of path
//! components and replacement of a token.

use vstd::prelude::*;
use vstd::string::StringExecFns;

verus! {

/// `String::push` appends the given character to the end of the string.
pub assume_specification[ String::push ](s: &mut String, ch: char)
    ensures
        final(s)@ == old(s)@.push(ch),
;

/// The characters of `s`, in order.
pub fn chars_of(s: &str) -> (chars: Vec<char>)
    ensures
        chars@ == s@,
{
    let mut chars: Vec<char> = Vec::new();
    for c in it: s.chars()
        invariant
            it.seq() == s@,
            chars@ == it.seq().take(it.index()),
    {
        chars.push(c);
    }
    chars
}

/// Whether `token` stands in `text` at position `at`.
pub open spec fn occurs_at(text: Seq<char>, token: Seq<char>, at: int) -> bool {
    &&& 0 <= at
    &&& at + token.len() <= text.len()
    &&& text.subrange(at, at + token.len()) == token
}

/// Decides [`occurs_at`].
pub fn matches_at(text: &Vec<char>, token: &Vec<char>, at: usize) -> (found: bool)
    ensures
        found == occurs_at(text@, token@, at as int),
{
    if at > text.len() || token.len() > text.len() - at {
        return false;
    }
    let mut i: usize = 0;
    while i < token.len()
        invariant
            i <= token.len(),
            at + token.len() <= text.len(),
            text@.subrange(at as int, at + i) == token@.take(i as int),
        decreases token.len() - i,
    {
        if text[at + i] != token[i] {
            assert(text@.subrange(at as int, at + token.len())[i as int] != token@[i as int]);
            return false;
        }
        i += 1;
        assert(text@.subrange(at as int, at + i) == text@.subrange(at as int, at + i - 1).push(
            text@[at + i - 1],
        ));
        assert(token@.take(i as int) == token@.take(i - 1).push(token@[i - 1]));
    }
    assert(token@.take(i as int) == token@);
    true
}

/// Whether `a` and `b` hold the same characters.
pub fn same_text(a: &str, b: &str) -> (same: bool)
    ensures
        same == (a@ == b@),
{
    let a = chars_of(a);
    let b = chars_of(b);
    if a.len() != b.len() {
        return false;
    }
    let same = matches_at(&a, &b, 0);
    assert(a@.subrange(0, b@.len() as int) == a@);
    same
}

/// `text` with every occurrence of `token` replaced by `value`.
///
/// Occurrences are found from left to right and do not overlap; what was
/// put in for one is not searched again.  An empty token occurs nowhere.
pub open spec fn replaced(text: Seq<char>, token: Seq<char>, value: Seq<char>) -> Seq<char>
    decreases text.len(),
{
    if text.len() == 0 {
        text
    } else if token.len() > 0 && occurs_at(text, token, 0) {
        value + replaced(text.skip(token.len() as int), token, value)
    } else {
        seq![text[0]] + replaced(text.skip(1), token, value)
    }
}

/// Replaces every occurrence of `token` in `text` by `value`.
pub fn substitute(text: &str, token: &str, value: &str) -> (out: String)
    ensures
        out@ == replaced(text@, token@, value@),
{
    let chars = chars_of(text);
    let token = chars_of(token);
    let mut out = String::new();
    let mut i: usize = 0;
    assert(chars@.skip(0) == chars@);
    while i < chars.len()
        invariant
            i <= chars.len(),
            out@ + replaced(chars@.skip(i as int), token@, value@) == replaced(
                chars@,
                token@,
                value@,
            ),
        decreases chars.len() - i,
    {
        let ghost rest = chars@.skip(i as int);
        let found = token.len() > 0 && matches_at(&chars, &token, i);
        proof {
            if token@.len() <= rest.len() {
                assert(rest.subrange(0, token@.len() as int) == chars@.subrange(
                    i as int,
                    i + token@.len(),
                ));
            }
            assert(found == (token@.len() > 0 && occurs_at(rest, token@, 0)));
        }
        if found {
            out.append(value);
            i += token.len();
            assert(rest.skip(token@.len() as int) == chars@.skip(i as int));
        } else {
            out.push(chars[i]);
            i += 1;
            assert(rest.skip(1) == chars@.skip(i as int));
        }
    }
    out
}

/// Replacement passes over a stretch that nowhere holds the token's first
/// character: the first `until` characters of `text` stay as they are.
pub proof fn lemma_replaced_keeps_plain(
    text: Seq<char>,
    token: Seq<char>,
    value: Seq<char>,
    until: int,
)
    requires
        token.len() > 0,
        0 <= until <= text.len(),
        forall|j: int| 0 <= j < until ==> text[j] != token[0],
    ensures
        replaced(text, token, value) == text.take(until) + replaced(
            text.skip(until),
            token,
            value,
        ),
    decreases until,
{
    if until == 0 {
        assert(text.skip(0) == text);
        assert(text.take(0) + replaced(text, token, value) == replaced(text, token, value));
    } else {
        assert(!occurs_at(text, token, 0)) by {
            if occurs_at(text, token, 0) {
                assert(text.subrange(0, token.len() as int)[0] == text[0]);
            }
        }
        let rest = text.skip(1);
        assert forall|j: int| 0 <= j < until - 1 implies rest[j] != token[0] by {
            assert(rest[j] == text[j + 1]);
        }
        lemma_replaced_keeps_plain(rest, token, value, until - 1);
        assert(rest.skip(until - 1) == text.skip(until));
        assert(seq![text[0]] + rest.take(until - 1) == text.take(until));
        assert(seq![text[0]] + (rest.take(until - 1) + replaced(text.skip(until), token, value))
            == (seq![text[0]] + rest.take(until - 1)) + replaced(text.skip(until), token, value));
    }
}

/// The path of `leaf` below the directory `base`.
///
/// An empty base is the current directory, and a base that ends with a
/// separator gets no second one.
pub open spec fn joined(base: Seq<char>, leaf: Seq<char>) -> Seq<char> {
    if base.len() == 0 {
        leaf
    } else if base.last() == '/' {
        base + leaf
    } else {
        base + seq!['/'] + leaf
    }
}

/// Computes [`joined`].
pub fn join(base: &str, leaf: &str) -> (path: String)
    ensures
        path@ == joined(base@, leaf@),
{
    let chars = chars_of(base);
    let mut path = base.to_owned();
    if chars.len() > 0 && chars[chars.len() - 1] != '/' {
        path.push('/');
    }
    path.append(leaf);
    path
}

} // verus!
