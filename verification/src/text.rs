//! Searching a banner for marker tokens.

use vstd::prelude::*;
use vstd::std_specs::iter::IteratorSpec;

verus! {

/// `text` begins with `prefix`.
pub open spec fn has_prefix(text: Seq<char>, prefix: Seq<char>) -> bool {
    prefix.len() <= text.len() && text.subrange(0, prefix.len() as int) == prefix
}

/// `token` stands in `text` at position `at`.
pub open spec fn occurs_at(text: Seq<char>, token: Seq<char>, at: int) -> bool {
    0 <= at && at + token.len() <= text.len() && text.subrange(at, at + token.len()) == token
}

/// `token` stands somewhere in `text`.
pub open spec fn has_substring(text: Seq<char>, token: Seq<char>) -> bool {
    exists|at: int| occurs_at(text, token, at)
}

/// The characters of `s`, one by one.
pub fn chars_of(s: &str) -> (chars: Vec<char>)
    ensures
        chars@ == s@,
{
    let mut chars: Vec<char> = Vec::new();
    for c in it: s.chars()
        invariant
            it.seq() == s@,
            chars@ == it.seq().take(it.index() as int),
    {
        chars.push(c);
    }
    chars
}

/// Whether `token` stands in `text` at `at`.
fn matches_at(text: &Vec<char>, token: &Vec<char>, at: usize) -> (found: bool)
    requires
        at + token.len() <= text.len(),
    ensures
        found == occurs_at(text@, token@, at as int),
{
    let mut k: usize = 0;
    while k < token.len()
        invariant
            k <= token.len(),
            at + token.len() <= text.len(),
            forall|j: int| 0 <= j < k ==> text@[at + j] == token@[j],
        decreases token.len() - k,
    {
        if text[at + k] != token[k] {
            return false;
        }
        k += 1;
    }
    assert(text@.subrange(at as int, at + token.len()) =~= token@);
    true
}

/// Whether `text` begins with `prefix`.
pub fn starts_with(text: &str, prefix: &str) -> (found: bool)
    ensures
        found == has_prefix(text@, prefix@),
{
    let hay = chars_of(text);
    let head = chars_of(prefix);
    if head.len() > hay.len() {
        return false;
    }
    matches_at(&hay, &head, 0)
}

/// Whether `token` stands somewhere in `text`.
pub fn contains(text: &str, token: &str) -> (found: bool)
    ensures
        found == has_substring(text@, token@),
{
    let hay = chars_of(text);
    let needle = chars_of(token);
    if needle.len() > hay.len() {
        return false;
    }
    let last: usize = hay.len() - needle.len();
    let mut at: usize = 0;
    loop
        invariant
            hay@ == text@,
            needle@ == token@,
            at <= last,
            last + needle.len() == hay.len(),
            forall|before: int| 0 <= before < at ==> !occurs_at(text@, token@, before),
        decreases last - at,
    {
        if matches_at(&hay, &needle, at) {
            return true;
        }
        if at == last {
            return false;
        }
        at += 1;
    }
}

} // verus!
