//! Small text predicates that the request validations use.

use vstd::prelude::*;
use vstd::string::StrSliceExecFns;

verus! {

/// The whitespace characters that a blank text may consist of.
pub open spec fn is_space_char(c: char) -> bool {
    c == ' ' || c == '\t' || c == '\n' || c == '\r'
}

/// A text is blank when every character of it is whitespace; the empty
/// text is blank.
pub open spec fn is_blank_chars(s: Seq<char>) -> bool {
    forall|i: int| 0 <= i < s.len() ==> is_space_char(#[trigger] s[i])
}

/// Whether `s` is empty or all whitespace.
pub fn is_blank(s: &str) -> (r: bool)
    ensures
        r == is_blank_chars(s@),
{
    let n = s.unicode_len();
    for k in 0..n
        invariant
            n == s@.len(),
            forall|i: int| 0 <= i < k ==> is_space_char(#[trigger] s@[i]),
    {
        let c = s.get_char(k);
        if !(c == ' ' || c == '\t' || c == '\n' || c == '\r') {
            return false;
        }
    }
    true
}

/// How many `'@'` characters a text contains.
pub open spec fn at_count(s: Seq<char>) -> int
    decreases s.len(),
{
    if s.len() == 0 {
        0
    } else {
        at_count(s.drop_last()) + if s.last() == '@' {
            1int
        } else {
            0int
        }
    }
}

/// The shape this library accepts as an email address: exactly one
/// `'@'`, with at least one character on each side of it.
pub open spec fn valid_email_chars(s: Seq<char>) -> bool {
    &&& s.len() >= 3
    &&& at_count(s) == 1
    &&& s[0] != '@'
    &&& s[s.len() - 1] != '@'
}

/// Whether `s` has the accepted email shape.
pub fn valid_email(s: &str) -> (r: bool)
    ensures
        r == valid_email_chars(s@),
{
    let n = s.unicode_len();
    if n < 3 {
        return false;
    }
    let mut count: usize = 0;
    for k in 0..n
        invariant
            n == s@.len(),
            count <= k,
            count == at_count(s@.take(k as int)),
    {
        assert(s@.take(k as int + 1).drop_last() =~= s@.take(k as int));
        assert(s@.take(k as int + 1).last() == s@[k as int]);
        let c = s.get_char(k);
        if c == '@' {
            count = count + 1;
        }
    }
    assert(s@.take(n as int) =~= s@);
    if count != 1 {
        return false;
    }
    let first = s.get_char(0);
    let last = s.get_char(n - 1);
    first != '@' && last != '@'
}

} // verus!
