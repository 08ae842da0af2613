//! Character-sequence helpers shared by the phone matcher and the log filter.

use vstd::prelude::*;
use vstd::std_specs::iter::IteratorSpec;

verus! {

/// `needle` occurs in `hay` starting at position `at`.
pub open spec fn occurs_at(hay: Seq<char>, needle: Seq<char>, at: int) -> bool {
    &&& 0 <= at
    &&& at + needle.len() <= hay.len()
    &&& hay.subrange(at, at + needle.len()) == needle
}

/// `needle` is a contiguous part of `hay`. The empty sequence is part of every sequence.
pub open spec fn is_substring(hay: Seq<char>, needle: Seq<char>) -> bool {
    exists|at: int| occurs_at(hay, needle, at)
}

/// Calls `String::push`. The contract claims what the documentation of `push` says: the text
/// afterwards is the text before with `c` at its end.
#[verifier::external_body]
pub(crate) fn push_char(text: &mut String, c: char)
    ensures
        final(text)@ == old(text)@.push(c),
{
    text.push(c);
}

/// The characters of `text`, in order.
pub fn chars_of(text: &str) -> (chars: Vec<char>)
    ensures
        chars@ == text@,
{
    broadcast use vstd::string::group_string_axioms;

    let mut chars: Vec<char> = Vec::new();
    let mut rest = text.chars();
    loop
        invariant
            chars@ + rest.remaining() == text@,
            rest.decrease() is Some,
        ensures
            chars@ == text@,
        decreases rest.decrease()->0,
    {
        match rest.next() {
            Some(c) => {
                chars.push(c);
            },
            None => {
                assert(rest.remaining().len() == 0);
                break;
            },
        }
    }
    chars
}

/// The string made of `chars`, in order.
pub fn string_of(chars: &Vec<char>) -> (text: String)
    ensures
        text@ == chars@,
{
    let mut text = String::new();
    let mut i: usize = 0;
    while i < chars.len()
        invariant
            i <= chars.len(),
            text@ == chars@.take(i as int),
        decreases chars.len() - i,
    {
        push_char(&mut text, chars[i]);
        i = i + 1;
    }
    text
}

/// The string made of the characters of `chars` from position `from` up to, not including, `to`.
pub(crate) fn string_of_range(chars: &Vec<char>, from: usize, to: usize) -> (text: String)
    requires
        from <= to <= chars.len(),
    ensures
        text@ == chars@.subrange(from as int, to as int),
{
    let mut text = String::new();
    let mut i: usize = from;
    while i < to
        invariant
            from <= i <= to <= chars.len(),
            text@ == chars@.subrange(from as int, i as int),
        decreases to - i,
    {
        push_char(&mut text, chars[i]);
        i = i + 1;
    }
    text
}

/// Whether `needle` stands in `hay` at position `at`.
fn stands_at(hay: &Vec<char>, at: usize, needle: &Vec<char>) -> (same: bool)
    requires
        at + needle.len() <= hay.len(),
    ensures
        same == (hay@.subrange(at as int, at + needle.len()) == needle@),
{
    let mut k: usize = 0;
    while k < needle.len()
        invariant
            k <= needle.len(),
            at + needle.len() <= hay.len(),
            forall|j: int| 0 <= j < k ==> hay@[at + j] == needle@[j],
        decreases needle.len() - k,
    {
        if hay[at + k] != needle[k] {
            assert(hay@.subrange(at as int, at + needle.len())[k as int] != needle@[k as int]);
            return false;
        }
        k = k + 1;
    }
    assert(hay@.subrange(at as int, at + needle.len()) =~= needle@);
    true
}

/// Whether `needle` is a contiguous part of the characters of `hay` from position `from` up to,
/// not including, `to`.
pub(crate) fn contains_in_range(hay: &Vec<char>, from: usize, to: usize, needle: &Vec<char>) -> (found: bool)
    requires
        from <= to <= hay.len(),
    ensures
        found == is_substring(hay@.subrange(from as int, to as int), needle@),
{
    let ghost window = hay@.subrange(from as int, to as int);
    if needle.len() == 0 {
        assert(window.subrange(0, 0) =~= needle@);
        assert(occurs_at(window, needle@, 0));
        return true;
    }
    if needle.len() > to - from {
        return false;
    }
    let last: usize = to - from - needle.len();
    let mut at: usize = 0;
    while at <= last
        invariant
            from <= to <= hay.len(),
            0 < needle.len() <= to - from,
            last == to - from - needle.len(),
            at <= last + 1,
            window == hay@.subrange(from as int, to as int),
            forall|k: int| 0 <= k < at ==> !occurs_at(window, needle@, k),
        decreases last + 1 - at,
    {
        assert(window.subrange(at as int, at + needle.len()) =~= hay@.subrange(
            from + at,
            from + at + needle.len(),
        ));
        if stands_at(hay, from + at, needle) {
            assert(occurs_at(window, needle@, at as int));
            return true;
        }
        at = at + 1;
    }
    false
}

/// Whether two texts hold the same characters.
pub fn same_text(a: &str, b: &str) -> (same: bool)
    ensures
        same == (a@ == b@),
{
    let left = chars_of(a);
    let right = chars_of(b);
    if left.len() != right.len() {
        return false;
    }
    let mut i: usize = 0;
    while i < left.len()
        invariant
            i <= left.len(),
            left.len() == right.len(),
            left@ == a@,
            right@ == b@,
            forall|j: int| 0 <= j < i ==> left@[j] == right@[j],
        decreases left.len() - i,
    {
        if left[i] != right[i] {
            assert(a@[i as int] != b@[i as int]);
            return false;
        }
        i = i + 1;
    }
    assert(left@ =~= right@);
    true
}

/// Whether `text` begins with `prefix`.
pub fn starts_with(text: &str, prefix: &str) -> (begins: bool)
    ensures
        begins == prefix@.is_prefix_of(text@),
{
    let all = chars_of(text);
    let head = chars_of(prefix);
    if head.len() > all.len() {
        return false;
    }
    let mut i: usize = 0;
    while i < head.len()
        invariant
            i <= head.len() <= all.len(),
            all@ == text@,
            head@ == prefix@,
            forall|j: int| 0 <= j < i ==> all@[j] == head@[j],
        decreases head.len() - i,
    {
        if all[i] != head[i] {
            assert(text@.subrange(0, prefix@.len() as int)[i as int] != prefix@[i as int]);
            return false;
        }
        i = i + 1;
    }
    assert(head@ =~= all@.subrange(0, head@.len() as int));
    true
}

/// Whether `needle` is a contiguous part of `hay`, character for character.
pub fn contains(hay: &str, needle: &str) -> (found: bool)
    ensures
        found == is_substring(hay@, needle@),
{
    let hay_chars = chars_of(hay);
    let needle_chars = chars_of(needle);
    assert(hay_chars@.subrange(0, hay_chars@.len() as int) =~= hay@);
    contains_in_range(&hay_chars, 0, hay_chars.len(), &needle_chars)
}

} // verus!
