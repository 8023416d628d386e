//! String slicing: the first word of a sentence.

use vstd::prelude::*;
use vstd::string::StrSliceExecFns;

verus! {

/// The prefix of `s` before its first space, or all of `s` when it
/// holds no space.
pub fn first_word<'a>(s: &'a String) -> (r: &'a str)
    ensures
        r@.len() <= s@.len(),
        r@ == s@.subrange(0, r@.len() as int),
        forall|j: int| 0 <= j < r@.len() ==> s@[j] != ' ',
        r@.len() < s@.len() ==> s@[r@.len() as int] == ' ',
{
    let n: usize = s.as_str().unicode_len();
    let mut i: usize = 0;
    while i < n && s.as_str().get_char(i) != ' '
        invariant
            0 <= i <= n,
            n == s@.len(),
            forall|j: int| 0 <= j < i ==> s@[j] != ' ',
        decreases n - i,
    {
        i = i + 1;
    }
    s.as_str().substring_char(0, i)
}

/// A moved `String` cannot be used again, so this demonstration holds
/// nothing executable.
pub fn strings() {
}

} // verus!
