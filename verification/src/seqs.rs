//! Facts about sequences that several modules use.

use vstd::prelude::*;

verus! {

/// The position at which `x` first stands in `s`; the length of `s` where it
/// does not occur.
pub open spec fn first_position<T>(s: Seq<T>, x: T) -> int
    decreases s.len(),
{
    if s.len() == 0 || s[0] == x {
        0
    } else {
        1 + first_position(s.skip(1), x)
    }
}

/// Before its first position `x` does not occur, and at it `x` stands, unless
/// the sequence ends there.
pub proof fn lemma_first_position_bounds<T>(s: Seq<T>, x: T)
    ensures
        0 <= first_position(s, x) <= s.len(),
        forall|k: int| 0 <= k < first_position(s, x) ==> s[k] != x,
        first_position(s, x) < s.len() ==> s[first_position(s, x)] == x,
    decreases s.len(),
{
    if s.len() == 0 || s[0] == x {
    } else {
        let rest = s.skip(1);
        lemma_first_position_bounds(rest, x);
        assert forall|k: int| 0 <= k < first_position(s, x) implies s[k] != x by {
            if k > 0 {
                assert(s[k] == rest[k - 1]);
            }
        }
        if first_position(s, x) < s.len() {
            assert(s[first_position(s, x)] == rest[first_position(rest, x)]);
        }
    }
}

/// A position that `x` does not occur before, and at which `x` stands or the
/// sequence ends, is the first position of `x`.
pub proof fn lemma_first_position_is<T>(s: Seq<T>, x: T, n: int)
    requires
        0 <= n <= s.len(),
        forall|k: int| 0 <= k < n ==> s[k] != x,
        n < s.len() ==> s[n] == x,
    ensures
        first_position(s, x) == n,
    decreases n,
{
    if n > 0 {
        let rest = s.skip(1);
        assert forall|k: int| 0 <= k < n - 1 implies rest[k] != x by {
            assert(rest[k] == s[k + 1]);
        }
        lemma_first_position_is(rest, x, n - 1);
    }
}

} // verus!
