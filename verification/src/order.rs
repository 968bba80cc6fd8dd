//! Equality and order of byte strings of a fixed length: both go byte by
//! byte, from the first byte on. Messages are equal where their fields
//! are.

use core::cmp::Ordering;
use vstd::prelude::*;
use vstd::std_specs::cmp::{PartialEqSpecImpl, PartialOrdSpecImpl};
use crate::fixed::FixedByteArray;
use crate::model;
use crate::web;

verus! {

/// Whether `a` comes before `b` byte by byte: at the first position where
/// the two differ, `a` has the smaller byte.
pub open spec fn precedes(a: Seq<u8>, b: Seq<u8>) -> bool {
    exists|k: int|
        {
            &&& 0 <= k < a.len()
            &&& k < b.len()
            &&& #[trigger] a[k] < b[k]
            &&& forall|j: int| 0 <= j < k ==> #[trigger] a[j] == b[j]
        }
}

/// Two byte strings of one length that agree before position `from`, and
/// differ somewhere, are ordered one way or the other.
proof fn lemma_differ_from(a: Seq<u8>, b: Seq<u8>, from: int)
    requires
        a.len() == b.len(),
        a != b,
        0 <= from <= a.len(),
        forall|j: int| 0 <= j < from ==> #[trigger] a[j] == b[j],
    ensures
        precedes(a, b) || precedes(b, a),
    decreases a.len() - from,
{
    if from == a.len() {
        assert(a =~= b);
    } else if a[from] == b[from] {
        lemma_differ_from(a, b, from + 1);
    } else if a[from] < b[from] {
        assert(precedes(a, b));
    } else {
        assert(b[from] < a[from]);
        assert(precedes(b, a));
    }
}

/// Of two byte strings of one length, exactly one holds: they are equal,
/// the first comes before the second, or the second before the first.
pub proof fn lemma_trichotomy(a: Seq<u8>, b: Seq<u8>)
    requires
        a.len() == b.len(),
    ensures
        a == b || precedes(a, b) || precedes(b, a),
        !(a == b && precedes(a, b)),
        !(a == b && precedes(b, a)),
        !(precedes(a, b) && precedes(b, a)),
{
    if a != b {
        lemma_differ_from(a, b, 0);
    }
    if precedes(a, b) && precedes(b, a) {
        let k = choose|k: int|
            {
                &&& 0 <= k < a.len()
                &&& k < b.len()
                &&& #[trigger] a[k] < b[k]
                &&& forall|j: int| 0 <= j < k ==> #[trigger] a[j] == b[j]
            };
        let l = choose|l: int|
            {
                &&& 0 <= l < b.len()
                &&& l < a.len()
                &&& #[trigger] b[l] < a[l]
                &&& forall|j: int| 0 <= j < l ==> #[trigger] b[j] == a[j]
            };
        if k < l {
            assert(b[k] == a[k]);
        } else if l < k {
            assert(a[l] == b[l]);
        }
    }
}

/// The order is transitive.
pub proof fn lemma_precedes_transitive(a: Seq<u8>, b: Seq<u8>, c: Seq<u8>)
    requires
        precedes(a, b),
        precedes(b, c),
    ensures
        precedes(a, c),
{
    let k = choose|k: int|
        {
            &&& 0 <= k < a.len()
            &&& k < b.len()
            &&& #[trigger] a[k] < b[k]
            &&& forall|j: int| 0 <= j < k ==> #[trigger] a[j] == b[j]
        };
    let l = choose|l: int|
        {
            &&& 0 <= l < b.len()
            &&& l < c.len()
            &&& #[trigger] b[l] < c[l]
            &&& forall|j: int| 0 <= j < l ==> #[trigger] b[j] == c[j]
        };
    let m = if k <= l { k } else { l };
    assert(a[m] < c[m]) by {
        if k < l {
            assert(b[k] == c[k]);
        } else if l < k {
            assert(a[l] == b[l]);
        }
    }
    assert forall|j: int| 0 <= j < m implies #[trigger] a[j] == c[j] by {
        assert(a[j] == b[j]);
        assert(b[j] == c[j]);
    }
    assert(precedes(a, c));
}

impl<const N: usize> PartialEq for FixedByteArray<N> {
    fn eq(&self, other: &Self) -> (same: bool) {
        proof {
            self.lemma_len();
            other.lemma_len();
        }
        let mut i: usize = 0;
        while i < N
            invariant
                i <= N,
                self@.len() == N,
                other@.len() == N,
                forall|k: int| 0 <= k < i ==> self@[k] == other@[k],
            decreases N - i,
        {
            if self.as_array()[i] != other.as_array()[i] {
                return false;
            }
            i += 1;
        }
        proof {
            assert(self@ =~= other@);
        }
        true
    }
}

impl<const N: usize> PartialEqSpecImpl for FixedByteArray<N> {
    open spec fn obeys_eq_spec() -> bool {
        true
    }

    open spec fn eq_spec(&self, other: &Self) -> bool {
        self@ == other@
    }
}

fn same_bytes(a: &[u8], b: &[u8]) -> (same: bool)
    ensures
        same == (a@ == b@),
{
    if a.len() != b.len() {
        return false;
    }
    let mut i: usize = 0;
    while i < a.len()
        invariant
            i <= a@.len(),
            a@.len() == b@.len(),
            forall|k: int| 0 <= k < i ==> a@[k] == b@[k],
        decreases a@.len() - i,
    {
        if a[i] != b[i] {
            return false;
        }
        i += 1;
    }
    proof {
        assert(a@ =~= b@);
    }
    true
}

impl PartialEq for model::Message {
    fn eq(&self, other: &Self) -> (same: bool) {
        same_bytes(self.signature.as_slice(), other.signature.as_slice()) && same_bytes(
            self.data.as_slice(),
            other.data.as_slice(),
        )
    }
}

impl PartialEqSpecImpl for model::Message {
    open spec fn obeys_eq_spec() -> bool {
        true
    }

    open spec fn eq_spec(&self, other: &Self) -> bool {
        self.signature@ == other.signature@ && self.data@ == other.data@
    }
}

impl PartialEq for web::Message {
    fn eq(&self, other: &Self) -> (same: bool) {
        self.signature == other.signature && self.data == other.data
    }
}

impl PartialEqSpecImpl for web::Message {
    open spec fn obeys_eq_spec() -> bool {
        true
    }

    open spec fn eq_spec(&self, other: &Self) -> bool {
        self.signature@ == other.signature@ && self.data@ == other.data@
    }
}

impl<const N: usize> PartialOrd for FixedByteArray<N> {
    fn partial_cmp(&self, other: &Self) -> (order: Option<Ordering>) {
        proof {
            self.lemma_len();
            other.lemma_len();
        }
        let ghost mut at: int = 0;
        let mut i: usize = 0;
        while i < N
            invariant
                i <= N,
                at == i,
                self@.len() == N,
                other@.len() == N,
                forall|k: int| 0 <= k < at ==> self@[k] == other@[k],
            decreases N - i,
        {
            let mine: u8 = self.as_array()[i];
            let theirs: u8 = other.as_array()[i];
            if mine < theirs {
                proof {
                    assert(self@[at] < other@[at]);
                    assert(precedes(self@, other@));
                }
                return Some(Ordering::Less);
            }
            if mine > theirs {
                proof {
                    assert(self@[at] > other@[at]);
                    assert(!precedes(self@, other@));
                }
                return Some(Ordering::Greater);
            }
            i += 1;
            proof {
                at = at + 1;
            }
        }
        proof {
            assert(self@ =~= other@);
        }
        Some(Ordering::Equal)
    }
}

impl<const N: usize> PartialOrdSpecImpl for FixedByteArray<N> {
    open spec fn obeys_partial_cmp_spec() -> bool {
        true
    }

    open spec fn partial_cmp_spec(&self, other: &Self) -> Option<Ordering> {
        if self@ == other@ {
            Some(Ordering::Equal)
        } else if precedes(self@, other@) {
            Some(Ordering::Less)
        } else {
            Some(Ordering::Greater)
        }
    }
}

} // verus!
