//! Small verified helpers for examining strings character by character.

use vstd::prelude::*;
use vstd::seq_lib::*;
use vstd::string::StrSliceExecFns;

verus! {

/// True exactly when `c` occurs somewhere in `s`.
pub fn str_contains_char(s: &str, c: char) -> (b: bool)
    ensures
        b == s@.contains(c),
{
    let n = s.unicode_len();
    let mut i: usize = 0;
    while i < n
        invariant
            i <= n,
            n == s@.len(),
            forall|k: int| 0 <= k < i ==> s@[k] != c,
        decreases n - i,
    {
        if s.get_char(i) == c {
            proof {
                assert(s@.contains(c)) by {
                    assert(s@[i as int] == c);
                }
            }
            return true;
        }
        i = i + 1;
    }
    proof {
        assert(!s@.contains(c)) by {
            if s@.contains(c) {
                let k = choose|k: int| 0 <= k < s@.len() && s@[k] == c;
                assert(s@[k] != c);
            }
        }
    }
    false
}

/// True exactly when the characters of `p` form a prefix of `s`.
pub fn has_prefix(s: &str, p: &Vec<char>) -> (b: bool)
    ensures
        b == p@.is_prefix_of(s@),
{
    let n = s.unicode_len();
    if p.len() > n {
        return false;
    }
    let mut k: usize = 0;
    while k < p.len()
        invariant
            k <= p.len(),
            p.len() <= n,
            n == s@.len(),
            forall|t: int| 0 <= t < k ==> s@[t] == p@[t],
        decreases p.len() - k,
    {
        if s.get_char(k) != p[k] {
            proof {
                assert(!p@.is_prefix_of(s@)) by {
                    assert(s@.take(p@.len() as int)[k as int] != p@[k as int]);
                }
            }
            return false;
        }
        k = k + 1;
    }
    proof {
        assert(s@.take(p@.len() as int) =~= p@);
    }
    true
}

/// True exactly when `s` consists of exactly the characters of `p`.
pub fn chars_eq(s: &str, p: &Vec<char>) -> (b: bool)
    ensures
        b == (s@ == p@),
{
    let n = s.unicode_len();
    if p.len() != n {
        return false;
    }
    let mut k: usize = 0;
    while k < n
        invariant
            k <= n,
            p.len() == n,
            n == s@.len(),
            forall|t: int| 0 <= t < k ==> s@[t] == p@[t],
        decreases n - k,
    {
        if s.get_char(k) != p[k] {
            proof {
                assert(s@[k as int] != p@[k as int]);
            }
            return false;
        }
        k = k + 1;
    }
    proof {
        assert(s@ =~= p@);
    }
    true
}

} // verus!
