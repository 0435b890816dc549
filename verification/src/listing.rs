//! Listings of maps keyed by identifiers, in increasing key order: the order
//! in which a `BTreeMap` hands out its entries.

use vstd::prelude::*;
use vstd::std_specs::btree::increasing_seq;
use vstd::std_specs::cmp::OrdSpec;

verus! {

/// Every key of `s` is smaller than every key after it.
pub open spec fn strictly_increasing(s: Seq<u128>) -> bool {
    forall|i: int, j: int| 0 <= i < j < s.len() ==> s[i] < s[j]
}

/// `s` lists the keys of `keys`, each once, in increasing order.
pub open spec fn is_ordering_of(s: Seq<u128>, keys: Set<u128>) -> bool {
    &&& strictly_increasing(s)
    &&& s.to_set() == keys
}

/// The keys of a finite set in increasing order.
pub open spec fn ordered_keys(keys: Set<u128>) -> Seq<u128> {
    choose|s: Seq<u128>| is_ordering_of(s, keys)
}

/// The values of a map, in increasing order of their keys.
pub open spec fn ordered_values<V>(m: Map<u128, V>) -> Seq<V> {
    ordered_keys(m.dom()).map_values(|k: u128| m[k])
}

proof fn lemma_max_exists(keys: Set<u128>)
    requires
        keys.finite(),
        keys.len() > 0,
    ensures
        exists|m: u128| keys.contains(m) && forall|k: u128| keys.contains(k) ==> k <= m,
    decreases keys.len(),
{
    let x = keys.choose();
    let rest = keys.remove(x);
    if rest.len() == 0 {
        assert forall|k: u128| keys.contains(k) implies k <= x by {
            if k != x {
                assert(rest.contains(k));
            }
        }
    } else {
        lemma_max_exists(rest);
        let m = choose|m: u128| rest.contains(m) && forall|k: u128| rest.contains(k) ==> k <= m;
        if m < x {
            assert forall|k: u128| keys.contains(k) implies k <= x by {
                if k != x {
                    assert(rest.contains(k));
                }
            }
        } else {
            assert forall|k: u128| keys.contains(k) implies k <= m by {
                if k != x {
                    assert(rest.contains(k));
                }
            }
        }
    }
}

proof fn lemma_ordering_exists(keys: Set<u128>)
    requires
        keys.finite(),
    ensures
        exists|s: Seq<u128>| is_ordering_of(s, keys),
    decreases keys.len(),
{
    if keys.len() == 0 {
        let s = Seq::<u128>::empty();
        assert(s.to_set() =~= keys);
        assert(is_ordering_of(s, keys));
    } else {
        lemma_max_exists(keys);
        let m = choose|m: u128| keys.contains(m) && forall|k: u128| keys.contains(k) ==> k <= m;
        let rest = keys.remove(m);
        lemma_ordering_exists(rest);
        let s = choose|s: Seq<u128>| is_ordering_of(s, rest);
        let t = s.push(m);
        assert forall|i: int, j: int| 0 <= i < j < t.len() implies t[i] < t[j] by {
            if j < s.len() {
                assert(s[i] < s[j]);
            } else {
                assert(s.contains(s[i]));
                assert(s.to_set().contains(s[i]));
                assert(rest.contains(s[i]));
            }
        }
        assert forall|k: u128| #[trigger] t.to_set().contains(k) <==> keys.contains(k) by {
            if t.to_set().contains(k) {
                assert(t.contains(k));
                let i = choose|i: int| 0 <= i < t.len() && t[i] == k;
                if i < s.len() {
                    assert(s.contains(k));
                    assert(s.to_set().contains(k));
                }
            }
            if keys.contains(k) {
                if k == m {
                    assert(t[t.len() - 1] == k);
                    assert(t.contains(k));
                } else {
                    assert(rest.contains(k));
                    assert(s.to_set().contains(k));
                    assert(s.contains(k));
                    let i = choose|i: int| 0 <= i < s.len() && s[i] == k;
                    assert(t[i] == k);
                    assert(t.contains(k));
                }
            }
        }
        assert(t.to_set() =~= keys);
        assert(is_ordering_of(t, keys));
    }
}

proof fn lemma_ordering_unique(s1: Seq<u128>, s2: Seq<u128>, keys: Set<u128>)
    requires
        is_ordering_of(s1, keys),
        is_ordering_of(s2, keys),
    ensures
        s1 == s2,
    decreases s1.len(),
{
    if s1.len() == 0 {
        if s2.len() > 0 {
            assert(s2.contains(s2[0]));
            assert(s2.to_set().contains(s2[0]));
            assert(!s1.to_set().contains(s2[0]));
        }
        assert(s1 =~= s2);
    } else {
        assert(s1.contains(s1[0]));
        assert(s1.to_set().contains(s1[0]));
        assert(s2.to_set().contains(s1[0]));
        assert(s2.contains(s1[0]));
        let j = choose|j: int| 0 <= j < s2.len() && s2[j] == s1[0];
        assert(s2.contains(s2[0]));
        assert(s1.to_set().contains(s2[0]));
        assert(s1.contains(s2[0]));
        let i = choose|i: int| 0 <= i < s1.len() && s1[i] == s2[0];
        // s1[0] <= s1[i] == s2[0] <= s2[j] == s1[0]
        assert(s1[0] <= s1[i]);
        assert(s2[0] <= s2[j]);
        assert(s1[0] == s2[0]);
        let k = s1[0];
        let r1 = s1.drop_first();
        let r2 = s2.drop_first();
        let rest = keys.remove(k);
        assert forall|x: u128| #[trigger] r1.to_set().contains(x) <==> rest.contains(x) by {
            if r1.to_set().contains(x) {
                assert(r1.contains(x));
                let a = choose|a: int| 0 <= a < r1.len() && r1[a] == x;
                assert(s1[a + 1] == x);
                assert(s1.contains(x));
                assert(s1.to_set().contains(x));
                assert(s1[0] < s1[a + 1]);
            }
            if rest.contains(x) {
                assert(s1.to_set().contains(x));
                assert(s1.contains(x));
                let a = choose|a: int| 0 <= a < s1.len() && s1[a] == x;
                assert(a != 0);
                assert(r1[a - 1] == x);
                assert(r1.contains(x));
            }
        }
        assert forall|x: u128| #[trigger] r2.to_set().contains(x) <==> rest.contains(x) by {
            if r2.to_set().contains(x) {
                assert(r2.contains(x));
                let a = choose|a: int| 0 <= a < r2.len() && r2[a] == x;
                assert(s2[a + 1] == x);
                assert(s2.contains(x));
                assert(s2.to_set().contains(x));
                assert(s2[0] < s2[a + 1]);
            }
            if rest.contains(x) {
                assert(s2.to_set().contains(x));
                assert(s2.contains(x));
                let a = choose|a: int| 0 <= a < s2.len() && s2[a] == x;
                assert(a != 0);
                assert(r2[a - 1] == x);
                assert(r2.contains(x));
            }
        }
        assert(r1.to_set() =~= rest);
        assert(r2.to_set() =~= rest);
        lemma_ordering_unique(r1, r2, rest);
        assert(s1 =~= s2) by {
            assert forall|a: int| 0 <= a < s1.len() implies s1[a] == s2[a] by {
                if a > 0 {
                    assert(r1[a - 1] == r2[a - 1]);
                }
            }
        }
    }
}

/// The increasing listing of a finite set of keys exists, and it is the only
/// one: any sequence that lists the keys once each, increasingly, is it.
pub proof fn lemma_ordered_keys(keys: Set<u128>, s: Seq<u128>)
    requires
        keys.finite(),
    ensures
        is_ordering_of(ordered_keys(keys), keys),
        is_ordering_of(s, keys) ==> s == ordered_keys(keys),
{
    lemma_ordering_exists(keys);
    if is_ordering_of(s, keys) {
        lemma_ordering_unique(s, ordered_keys(keys), keys);
    }
}

/// A key sequence that a `BTreeMap` reports as increasing is strictly
/// increasing as integers.
pub proof fn lemma_increasing_keys(ks: Seq<u128>)
    requires
        increasing_seq(ks),
    ensures
        strictly_increasing(ks),
{
    broadcast use vstd::std_specs::btree::group_btree_axioms, vstd::laws_cmp::group_laws_cmp;
    assert forall|i: int, j: int| 0 <= i < j < ks.len() implies ks[i] < ks[j] by {
        assert(ks[i].cmp_spec(&ks[j]) is Less);
    }
}

} // verus!
