//! Splitting a text of bytes at a separator.

use vstd::prelude::*;

verus! {

/// The first position at or after `from` at which `s` holds `b`, or the
/// length of `s` if there is none.
pub open spec fn find_from(s: Seq<u8>, b: u8, from: nat) -> nat
    decreases s.len() - from,
{
    if from >= s.len() {
        s.len()
    } else if s[from as int] == b {
        from
    } else {
        find_from(s, b, from + 1)
    }
}

/// The first position at which `s` holds `b`, or the length of `s`.
pub open spec fn first_index(s: Seq<u8>, b: u8) -> nat {
    find_from(s, b, 0)
}

/// Finds the first `b` in `s`.
pub fn find_byte(s: &[u8], b: u8) -> (i: usize)
    ensures
        i == first_index(s@, b),
        i <= s@.len(),
        i < s@.len() ==> s@[i as int] == b,
        forall|j: int| 0 <= j < i ==> s@[j] != b,
{
    let n: usize = s.len();
    let mut i: usize = 0;
    while i < n && s[i] != b
        invariant
            n == s@.len(),
            i <= n,
            find_from(s@, b, i as nat) == first_index(s@, b),
            forall|j: int| 0 <= j < i ==> s@[j] != b,
        decreases n - i,
    {
        i += 1;
    }
    i
}

} // verus!
