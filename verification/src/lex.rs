//! The order of byte strings: by the first byte in which two differ, a
//! proper prefix before what it is a prefix of.

use crate::index::place;
use std::cmp::Ordering;
use vstd::prelude::*;

verus! {

/// Whether `a` comes before `b`: they agree up to some place, where `a`
/// ends and `b` goes on, or where `a` has the smaller byte.
pub open spec fn lex_less(a: Seq<u8>, b: Seq<u8>) -> bool {
    exists|k: int| #[trigger] differ_at(a, b, k) && (k == a.len() || a[k] < b[k])
}

/// Whether `k` is the first place at which `a` is not as `b` is, `a`
/// having ended there or holding another byte than `b`, which goes on.
pub open spec fn differ_at(a: Seq<u8>, b: Seq<u8>, k: int) -> bool {
    &&& 0 <= k <= a.len()
    &&& k < b.len()
    &&& a.take(k) == b.take(k)
    &&& k < a.len() ==> a[k] != b[k]
}

/// How `a` stands to `b` in the order of byte strings.
pub open spec fn lex_order(a: Seq<u8>, b: Seq<u8>) -> Ordering {
    if a == b {
        Ordering::Equal
    } else if lex_less(a, b) {
        Ordering::Less
    } else {
        Ordering::Greater
    }
}

/// Of two byte strings, one comes before the other or they are the same,
/// and only one of the three holds.
pub proof fn lemma_lex_trichotomy(a: Seq<u8>, b: Seq<u8>)
    ensures
        lex_less(a, b) || a == b || lex_less(b, a),
        !(lex_less(a, b) && a == b),
        !(lex_less(a, b) && lex_less(b, a)),
        lex_order(a, b) == Ordering::Greater <==> lex_less(b, a),
{
    if lex_less(a, b) {
        let k = choose|k: int| #[trigger] differ_at(a, b, k) && (k == a.len() || a[k] < b[k]);
        assert(a != b);
        if lex_less(b, a) {
            let j = choose|j: int| #[trigger] differ_at(b, a, j) && (j == b.len() || b[j] < a[j]);
            lemma_first_difference_is_one(a, b, k, j);
        }
    }
    if a != b {
        assert(a.take(0) =~= b.take(0));
        let k = lemma_first_difference(a, b, 0);
        if k < a.len() && k < b.len() {
            if a[k] < b[k] {
                assert(differ_at(a, b, k));
            } else {
                assert(differ_at(b, a, k));
            }
        } else if k == a.len() {
            assert(differ_at(a, b, k));
        } else {
            assert(differ_at(b, a, k));
        }
    }
}

/// Two byte strings that agree up to `from` and are not the same differ
/// at some first place from there on.
proof fn lemma_first_difference(a: Seq<u8>, b: Seq<u8>, from: int) -> (k: int)
    requires
        a != b,
        0 <= from <= a.len(),
        from <= b.len(),
        a.take(from) == b.take(from),
    ensures
        from <= k <= a.len(),
        k <= b.len(),
        a.take(k) == b.take(k),
        k < a.len() || k < b.len(),
        k < a.len() && k < b.len() ==> a[k] != b[k],
    decreases a.len() - from,
{
    if from == a.len() || from == b.len() {
        if from == a.len() && from == b.len() {
            assert(a.take(from) =~= a);
            assert(b.take(from) =~= b);
        }
        from
    } else if a[from] != b[from] {
        from
    } else {
        assert(a.take(from + 1) =~= a.take(from).push(a[from]));
        assert(b.take(from + 1) =~= b.take(from).push(b[from]));
        lemma_first_difference(a, b, from + 1)
    }
}

/// The first place at which two byte strings differ is one place,
/// whichever way round it is looked for.
proof fn lemma_first_difference_is_one(a: Seq<u8>, b: Seq<u8>, k: int, j: int)
    requires
        differ_at(a, b, k),
        differ_at(b, a, j),
    ensures
        k == j,
        k < a.len(),
        j < b.len(),
{
    if k < j {
        assert(b.take(j)[k] == a.take(j)[k]);
        assert(k < a.len());
    } else if j < k {
        assert(a.take(k)[j] == b.take(k)[j]);
    } else {
    }
}

/// The order of byte strings is transitive.
pub proof fn lemma_lex_transitive(a: Seq<u8>, b: Seq<u8>, c: Seq<u8>)
    requires
        lex_less(a, b),
        lex_less(b, c),
    ensures
        lex_less(a, c),
{
    let k = choose|k: int| #[trigger] differ_at(a, b, k) && (k == a.len() || a[k] < b[k]);
    let j = choose|j: int| #[trigger] differ_at(b, c, j) && (j == b.len() || b[j] < c[j]);
    let m = if k <= j { k } else { j };
    assert(a.take(m) =~= c.take(m)) by {
        assert forall|i: int| 0 <= i < m implies a[i] == c[i] by {
            assert(a.take(k)[i] == b.take(k)[i]);
            assert(b.take(j)[i] == c.take(j)[i]);
        }
    }
    if k < j {
        assert(b.take(j)[k] == c.take(j)[k]);
    } else if j < k {
        assert(a.take(k)[j] == b.take(k)[j]);
    }
    assert(differ_at(a, c, m));
}

/// Compares two byte strings.
pub fn compare_bytes(a: &[u8], b: &[u8]) -> (o: Ordering)
    ensures
        o == lex_order(a@, b@),
{
    let mut i: usize = 0;
    while i < a.len() && i < b.len()
        invariant
            i <= a.len(),
            i <= b.len(),
            a@.take(place(i)) == b@.take(place(i)),
        decreases a.len() - i,
    {
        if a[i] < b[i] {
            proof {
                assert(differ_at(a@, b@, place(i)));
                lemma_lex_trichotomy(a@, b@);
            }
            return Ordering::Less;
        }
        if a[i] > b[i] {
            proof {
                assert(differ_at(b@, a@, place(i)));
                lemma_lex_trichotomy(a@, b@);
            }
            return Ordering::Greater;
        }
        proof {
            assert(a@.take(place(i) + 1) =~= a@.take(place(i)).push(a@[place(i)]));
            assert(b@.take(place(i) + 1) =~= b@.take(place(i)).push(b@[place(i)]));
        }
        i += 1;
    }
    if i < b.len() {
        proof {
            assert(differ_at(a@, b@, place(i)));
            lemma_lex_trichotomy(a@, b@);
        }
        Ordering::Less
    } else if i < a.len() {
        proof {
            assert(differ_at(b@, a@, place(i)));
            lemma_lex_trichotomy(a@, b@);
        }
        Ordering::Greater
    } else {
        proof {
            assert(a@.take(place(i)) =~= a@);
            assert(b@.take(place(i)) =~= b@);
        }
        Ordering::Equal
    }
}

/// Whether two byte strings are the same.
pub fn same_bytes(a: &[u8], b: &[u8]) -> (r: bool)
    ensures
        r == (a@ == b@),
{
    if a.len() != b.len() {
        return false;
    }
    let mut i: usize = 0;
    while i < a.len()
        invariant
            a.len() == b.len(),
            i <= a.len(),
            forall|j: int| 0 <= j < i ==> a@[j] == b@[j],
        decreases a.len() - i,
    {
        if a[i] != b[i] {
            return false;
        }
        i += 1;
    }
    assert(a@ =~= b@);
    true
}

} // verus!
