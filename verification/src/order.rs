//! Byte-lexicographic ordering of keys.

use core::cmp::Ordering;
use vstd::prelude::*;

use crate::key::Key;
use crate::key::KEY_SIZE;

verus! {

broadcast use crate::key::lemma_key_len;

/// Byte-lexicographic comparison of `a` and `b` from position `i` on, for
/// sequences of equal length: the first differing byte decides.
pub open spec fn spec_lex_cmp_from(a: Seq<u8>, b: Seq<u8>, i: int) -> Ordering
    recommends
        a.len() == b.len(),
        0 <= i <= a.len(),
    decreases a.len() - i,
{
    if i < a.len() && i < b.len() {
        if a[i] < b[i] {
            Ordering::Less
        } else if a[i] > b[i] {
            Ordering::Greater
        } else {
            spec_lex_cmp_from(a, b, i + 1)
        }
    } else {
        Ordering::Equal
    }
}

/// Byte-lexicographic comparison of two equal-length byte sequences, index 0
/// most significant.
pub open spec fn spec_lex_cmp(a: Seq<u8>, b: Seq<u8>) -> Ordering {
    spec_lex_cmp_from(a, b, 0)
}

proof fn lemma_lex_cmp_from_equal(a: Seq<u8>, b: Seq<u8>, i: int)
    requires
        a.len() == b.len(),
        0 <= i <= a.len(),
    ensures
        spec_lex_cmp_from(a, b, i) == Ordering::Equal <==> (forall|j: int|
            i <= j < a.len() ==> a[j] == b[j]),
    decreases a.len() - i,
{
    if i < a.len() {
        lemma_lex_cmp_from_equal(a, b, i + 1);
    }
}

proof fn lemma_lex_cmp_from_antisym(a: Seq<u8>, b: Seq<u8>, i: int)
    requires
        a.len() == b.len(),
        0 <= i <= a.len(),
    ensures
        spec_lex_cmp_from(a, b, i) == Ordering::Less <==> spec_lex_cmp_from(b, a, i)
            == Ordering::Greater,
    decreases a.len() - i,
{
    if i < a.len() {
        lemma_lex_cmp_from_antisym(a, b, i + 1);
    }
}

proof fn lemma_lex_cmp_from_trans(a: Seq<u8>, b: Seq<u8>, c: Seq<u8>, i: int)
    requires
        a.len() == b.len(),
        b.len() == c.len(),
        0 <= i <= a.len(),
        spec_lex_cmp_from(a, b, i) == Ordering::Less,
        spec_lex_cmp_from(b, c, i) == Ordering::Less,
    ensures
        spec_lex_cmp_from(a, c, i) == Ordering::Less,
    decreases a.len() - i,
{
    if i < a.len() && a[i] == b[i] && b[i] == c[i] {
        lemma_lex_cmp_from_trans(a, b, c, i + 1);
    }
}

/// Law: comparison of keys is a strict total order. Two keys compare `Equal`
/// exactly when they are the same key, and on distinct keys exactly one
/// direction compares `Less`.
pub proof fn lemma_key_order_trichotomy(a: Key, b: Key)
    ensures
        spec_lex_cmp(a@, b@) == Ordering::Equal <==> a == b,
        spec_lex_cmp(a@, b@) == Ordering::Less <==> spec_lex_cmp(b@, a@) == Ordering::Greater,
        a != b ==> (spec_lex_cmp(a@, b@) == Ordering::Less) != (spec_lex_cmp(b@, a@)
            == Ordering::Less),
{
    lemma_lex_cmp_from_equal(a@, b@, 0);
    lemma_lex_cmp_from_antisym(a@, b@, 0);
    lemma_lex_cmp_from_antisym(b@, a@, 0);
    crate::key::lemma_key_view_injective(a, b);
    if spec_lex_cmp(a@, b@) == Ordering::Equal {
        assert(a@ =~= b@);
    }
}

/// Law: comparison of keys is transitive.
pub proof fn lemma_key_order_transitive(a: Key, b: Key, c: Key)
    requires
        spec_lex_cmp(a@, b@) == Ordering::Less,
        spec_lex_cmp(b@, c@) == Ordering::Less,
    ensures
        spec_lex_cmp(a@, c@) == Ordering::Less,
{
    lemma_lex_cmp_from_trans(a@, b@, c@, 0);
}

impl Key {
    /// Byte-lexicographic comparison over the full 32-byte representation.
    pub fn compare(&self, other: &Key) -> (r: Ordering)
        ensures
            r == spec_lex_cmp(self@, other@),
    {
        let a = self.as_bytes();
        let b = other.as_bytes();
        let mut i: usize = 0;
        while i < KEY_SIZE
            invariant
                a@ == self@,
                b@ == other@,
                i <= KEY_SIZE,
                spec_lex_cmp(self@, other@) == spec_lex_cmp_from(self@, other@, i as int),
            decreases KEY_SIZE - i,
        {
            if a[i] < b[i] {
                return Ordering::Less;
            }
            if a[i] > b[i] {
                return Ordering::Greater;
            }
            i += 1;
        }
        Ordering::Equal
    }
}

impl PartialOrd for Key {
    /// Keys are totally ordered, so a comparison is always available.
    fn partial_cmp(&self, other: &Self) -> (r: Option<Ordering>) {
        Some(self.compare(other))
    }
}

impl vstd::std_specs::cmp::PartialOrdSpecImpl for Key {
    open spec fn obeys_partial_cmp_spec() -> bool {
        true
    }

    open spec fn partial_cmp_spec(&self, other: &Self) -> Option<Ordering> {
        Some(spec_lex_cmp(self@, other@))
    }
}

} // verus!
