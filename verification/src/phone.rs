//! Phone matching: the digits-only form of a phone-like string, and the loose containment
//! rule that decides whether two such forms name the same subscriber.

use crate::text::{chars_of, contains_in_range, is_substring, string_of};
use vstd::prelude::*;

verus! {

/// An ASCII decimal digit.
pub open spec fn is_digit(c: char) -> bool {
    '0' <= c <= '9'
}

/// Every character of `s` is an ASCII decimal digit.
pub open spec fn all_digits(s: Seq<char>) -> bool {
    forall|i: int| 0 <= i < s.len() ==> is_digit(#[trigger] s[i])
}

/// The digits of `s`, in the order in which they stand in `s`.
pub open spec fn digits_of(s: Seq<char>) -> Seq<char> {
    s.filter(|c: char| is_digit(c))
}

/// The containment rule on two digit strings: both are non-empty, and one is a contiguous
/// part of the other.
pub open spec fn same_subscriber(a: Seq<char>, b: Seq<char>) -> bool {
    &&& a.len() > 0
    &&& b.len() > 0
    &&& (is_substring(a, b) || is_substring(b, a))
}

/// The digits-only form of a phone-like string.
#[derive(Debug, PartialEq, Eq)]
pub struct NormalizedPhone {
    digits: Vec<char>,
}

impl View for NormalizedPhone {
    type V = Seq<char>;

    closed spec fn view(&self) -> Seq<char> {
        self.digits@
    }
}

impl NormalizedPhone {
    #[verifier::type_invariant]
    spec fn only_digits(self) -> bool {
        all_digits(self.digits@)
    }

    /// The digits, as a string.
    pub fn as_string(&self) -> (text: String)
        ensures
            text@ == self@,
            all_digits(text@),
    {
        proof {
            use_type_invariant(self);
        }
        string_of(&self.digits)
    }

    /// Whether the form holds no digit at all.
    pub fn is_empty(&self) -> (empty: bool)
        ensures
            empty == (self@.len() == 0),
    {
        self.digits.len() == 0
    }

    /// Decides whether `self` and `other` name the same subscriber.
    pub fn matches(&self, other: &NormalizedPhone) -> (same: bool)
        ensures
            same == same_subscriber(self@, other@),
    {
        if self.digits.len() == 0 || other.digits.len() == 0 {
            return false;
        }
        assert(self.digits@.subrange(0, self.digits@.len() as int) =~= self@);
        assert(other.digits@.subrange(0, other.digits@.len() as int) =~= other@);
        contains_in_range(&self.digits, 0, self.digits.len(), &other.digits) || contains_in_range(
            &other.digits,
            0,
            other.digits.len(),
            &self.digits,
        )
    }
}

/// Keeps the ASCII decimal digits of `s`, in order, and drops every other character.
pub fn normalize(s: &str) -> (phone: NormalizedPhone)
    ensures
        phone@ == digits_of(s@),
{
    let chars = chars_of(s);
    let mut digits: Vec<char> = Vec::new();
    let mut i: usize = 0;
    while i < chars.len()
        invariant
            i <= chars.len(),
            digits@ == digits_of(chars@.take(i as int)),
            all_digits(digits@),
        decreases chars.len() - i,
    {
        let c = chars[i];
        proof {
            reveal(Seq::filter);
            assert(chars@.take(i + 1).drop_last() =~= chars@.take(i as int));
        }
        if '0' <= c && c <= '9' {
            digits.push(c);
        }
        i = i + 1;
    }
    assert(chars@.take(chars@.len() as int) =~= chars@);
    NormalizedPhone { digits }
}

/// Decides whether two phone-like strings name the same subscriber once each is reduced to
/// its digits.
pub fn phones_match(a: &str, b: &str) -> (same: bool)
    ensures
        same == same_subscriber(digits_of(a@), digits_of(b@)),
{
    let left = normalize(a);
    let right = normalize(b);
    left.matches(&right)
}

/// The digits-only form holds nothing but digits.
pub proof fn lemma_digits_only(s: Seq<char>)
    ensures
        all_digits(digits_of(s)),
{
    broadcast use vstd::seq_lib::group_filter_ensures;

}

/// A string of digits is its own digits-only form.
pub proof fn lemma_digits_fixed(s: Seq<char>)
    requires
        all_digits(s),
    ensures
        digits_of(s) == s,
    decreases s.len(),
{
    reveal(Seq::filter);
    if s.len() > 0 {
        lemma_digits_fixed(s.drop_last());
        assert(s.drop_last().push(s.last()) =~= s);
    }
}

/// Reducing to digits twice gives what reducing once gives.
pub proof fn lemma_normalize_idempotent(s: Seq<char>)
    ensures
        digits_of(digits_of(s)) == digits_of(s),
{
    lemma_digits_only(s);
    lemma_digits_fixed(digits_of(s));
}

/// The digits-only form of two strings put end to end is the two forms put end to end.
pub proof fn lemma_digits_concat(a: Seq<char>, b: Seq<char>)
    ensures
        digits_of(a + b) == digits_of(a) + digits_of(b),
{
    Seq::filter_distributes_over_add(a, b, |c: char| is_digit(c));
}

/// The digits-only form keeps every digit of `s` and keeps them in their order: `places`
/// gives, for each character of the form, the position in `s` that it was taken from; the
/// positions rise strictly, and every position of `s` that holds a digit is among them.
pub proof fn lemma_digits_keep_order(s: Seq<char>) -> (places: Seq<int>)
    ensures
        places.len() == digits_of(s).len(),
        forall|k: int|
            0 <= k < places.len() ==> 0 <= #[trigger] places[k] < s.len() && digits_of(s)[k]
                == s[places[k]],
        forall|j: int, k: int| 0 <= j < k < places.len() ==> places[j] < places[k],
        forall|i: int| 0 <= i < s.len() && is_digit(s[i]) ==> places.contains(i),
    decreases s.len(),
{
    reveal(Seq::filter);
    if s.len() == 0 {
        Seq::empty()
    } else {
        let before = lemma_digits_keep_order(s.drop_last());
        let last = s.len() - 1;
        if is_digit(s.last()) {
            let places = before.push(last);
            assert forall|i: int| 0 <= i < s.len() && is_digit(s[i]) implies places.contains(
                i,
            ) by {
                if i < last {
                    assert(s.drop_last()[i] == s[i]);
                    assert(before.contains(i));
                    let k = choose|k: int| 0 <= k < before.len() && before[k] == i;
                    assert(places[k] == i);
                } else {
                    assert(places[before.len() as int] == i);
                }
            }
            places
        } else {
            assert forall|i: int| 0 <= i < s.len() && is_digit(s[i]) implies before.contains(
                i,
            ) by {
                assert(s.drop_last()[i] == s[i]);
                assert(before.contains(i));
            }
            before
        }
    }
}

/// The containment rule does not depend on the order of its two arguments.
pub proof fn lemma_matches_symmetric(a: Seq<char>, b: Seq<char>)
    ensures
        same_subscriber(a, b) == same_subscriber(b, a),
{
}

/// Nothing matches the empty digit string, not even the empty digit string.
pub proof fn lemma_empty_never_matches(x: Seq<char>)
    ensures
        !same_subscriber(Seq::<char>::empty(), x),
        !same_subscriber(x, Seq::<char>::empty()),
{
}

} // verus!
