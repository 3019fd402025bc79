//! Structural validation of command names.
//!
//! A command name is a word of ASCII lowercase letters joined by `-`:
//! it is nonempty, holds only `a`-`z` and `-`, neither starts nor ends
//! with `-`, and holds at most two `-` separators (at most three words).

use vstd::prelude::*;

verus! {

/// True if `c` may occur in a command name.
pub open spec fn name_char(c: char) -> bool {
    ('a' <= c && c <= 'z') || c == '-'
}

/// The number of `-` characters in `s`.
pub open spec fn dash_count(s: Seq<char>) -> nat
    decreases s.len(),
{
    if s.len() == 0 {
        0
    } else {
        dash_count(s.drop_last()) + (if s.last() == '-' {
            1nat
        } else {
            0nat
        })
    }
}

/// A well-formed command name: nonempty, only `a`-`z` and `-`, no
/// leading or trailing `-`, and at most two `-` separators.
pub open spec fn valid_cmd_name(s: Seq<char>) -> bool {
    &&& s.len() > 0
    &&& (forall|i: int| 0 <= i < s.len() ==> name_char(#[trigger] s[i]))
    &&& s[0] != '-'
    &&& s[s.len() - 1] != '-'
    &&& dash_count(s) <= 2
}

/// Decides [`valid_cmd_name`] for a string.
pub fn name_is_valid(name: &str) -> (r: bool)
    ensures
        r == valid_cmd_name(name@),
{
    let n = name.unicode_len();
    if n == 0 {
        return false;
    }
    let mut i: usize = 0;
    let mut dashes: usize = 0;
    while i < n
        invariant
            i <= n,
            n == name@.len(),
            dashes <= i,
            dashes == dash_count(name@.subrange(0, i as int)),
            forall|j: int| 0 <= j < i ==> name_char(#[trigger] name@[j]),
        decreases n - i,
    {
        let c = name.get_char(i);
        if !((c >= 'a' && c <= 'z') || c == '-') {
            return false;
        }
        proof {
            assert(name@.subrange(0, i + 1).drop_last() =~= name@.subrange(0, i as int));
            assert(name@.subrange(0, i + 1).last() == name@[i as int]);
        }
        if c == '-' {
            dashes = dashes + 1;
        }
        i = i + 1;
    }
    proof {
        assert(name@.subrange(0, n as int) =~= name@);
    }
    let first = name.get_char(0);
    let last = name.get_char(n - 1);
    first != '-' && last != '-' && dashes <= 2
}

} // verus!
