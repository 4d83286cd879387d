//! Comparison of bit patterns in units in the last place (ULPs).
//!
//! Approximate equality of colors with real-valued channels ends in an
//! integer question: how far apart are the bit patterns of two channels, and
//! is every channel of one color within a given distance of the same channel
//! of the other? Alpha counts as a channel like the others, which is why the
//! comparison always runs over four patterns.

use vstd::prelude::*;

verus! {

/// The distance that approximate equality accepts when none is given.
pub const DEFAULT_MAX_ULPS: u32 = 4;

/// The distance between two bit patterns: the absolute difference of the
/// integers they are.
pub open spec fn ulps_between(a: u32, b: u32) -> nat {
    if a >= b {
        (a - b) as nat
    } else {
        (b - a) as nat
    }
}

/// Every pattern of `s` is within `max_ulps` of the pattern of `o` at the
/// same place.
pub open spec fn all_within_ulps(s: Seq<u32>, o: Seq<u32>, max_ulps: u32) -> bool {
    &&& s.len() == o.len()
    &&& forall|i: int| 0 <= i < s.len() ==> ulps_between(#[trigger] s[i], o[i]) <= max_ulps
}

/// Returns the distance between two bit patterns.
pub fn ulps_apart(a: u32, b: u32) -> (d: u32)
    ensures
        d == ulps_between(a, b),
{
    if a >= b {
        a - b
    } else {
        b - a
    }
}

/// Tells whether each of the four patterns of `s` is within `max_ulps` of the
/// pattern of `o` at the same place.
pub fn within_ulps(s: &[u32; 4], o: &[u32; 4], max_ulps: u32) -> (ok: bool)
    ensures
        ok == all_within_ulps(s@, o@, max_ulps),
{
    let mut i: usize = 0;
    while i < 4
        invariant
            i <= 4,
            forall|j: int| 0 <= j < i ==> ulps_between(#[trigger] s@[j], o@[j]) <= max_ulps,
        decreases 4 - i,
    {
        if ulps_apart(s[i], o[i]) > max_ulps {
            assert(ulps_between(s@[i as int], o@[i as int]) > max_ulps);
            return false;
        }
        i += 1;
    }
    true
}

/// The distance is symmetric, and it is zero for equal patterns only.
pub proof fn lemma_ulps_between_is_a_distance(a: u32, b: u32)
    ensures
        ulps_between(a, b) == ulps_between(b, a),
        ulps_between(a, b) == 0 <==> a == b,
{
}

/// A wider tolerance accepts whatever a narrower one accepts, and every
/// sequence of patterns is within any tolerance of itself.
pub proof fn lemma_within_ulps_widens(s: Seq<u32>, o: Seq<u32>, narrow: u32, wide: u32)
    requires
        narrow <= wide,
    ensures
        all_within_ulps(s, o, narrow) ==> all_within_ulps(s, o, wide),
        all_within_ulps(s, s, narrow),
        all_within_ulps(s, o, narrow) <==> all_within_ulps(o, s, narrow),
{
    if all_within_ulps(s, o, narrow) {
        assert forall|i: int| 0 <= i < o.len() implies ulps_between(#[trigger] o[i], s[i])
            <= narrow by {
            assert(ulps_between(s[i], o[i]) <= narrow);
        }
    }
    if all_within_ulps(o, s, narrow) {
        assert forall|i: int| 0 <= i < s.len() implies ulps_between(#[trigger] s[i], o[i])
            <= narrow by {
            assert(ulps_between(o[i], s[i]) <= narrow);
        }
    }
}

} // verus!
