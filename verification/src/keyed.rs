//! Tables keyed by text: a vector of `(key, value)` pairs in which no key
//! occurs twice, read as a finite map from key to value.

use vstd::prelude::*;

use crate::text::str_eq;

verus! {

/// No key occurs twice in `s`.
pub open spec fn distinct_keys<V>(s: Seq<(String, V)>) -> bool {
    forall|i: int, j: int| 0 <= i < s.len() && 0 <= j < s.len() && i != j ==> s[i].0@ != s[j].0@
}

/// Some pair of `s` has key `k`.
pub open spec fn has_key<V>(s: Seq<(String, V)>, k: Seq<char>) -> bool {
    exists|i: int| 0 <= i < s.len() && s[i].0@ == k
}

/// The map from each key of `s` to its value.
pub open spec fn table_map<V>(s: Seq<(String, V)>) -> Map<Seq<char>, V> {
    Map::new(
        |k: Seq<char>| has_key(s, k),
        |k: Seq<char>| s[choose|i: int| 0 <= i < s.len() && s[i].0@ == k].1,
    )
}

/// In a table without repeated keys, the value of the key at position `i`
/// is the value at position `i`.
pub proof fn lemma_table_value_at<V>(s: Seq<(String, V)>, i: int)
    requires
        distinct_keys(s),
        0 <= i < s.len(),
    ensures
        table_map(s).dom().contains(s[i].0@),
        table_map(s)[s[i].0@] == s[i].1,
{
    let k = s[i].0@;
    assert(has_key(s, k));
    let j = choose|j: int| 0 <= j < s.len() && s[j].0@ == k;
    assert(j == i);
}

/// A table without repeated keys has as many keys as pairs.
pub proof fn lemma_table_len<V>(s: Seq<(String, V)>)
    requires
        distinct_keys(s),
    ensures
        table_map(s).dom().finite(),
        table_map(s).len() == s.len(),
    decreases s.len(),
{
    if s.len() == 0 {
        assert(table_map(s).dom() =~= Set::<Seq<char>>::empty());
    } else {
        let t = s.drop_last();
        let k = s.last().0@;
        lemma_table_len(t);
        assert(distinct_keys(t));
        assert(!table_map(t).dom().contains(k)) by {
            if has_key(t, k) {
                let a = choose|a: int| 0 <= a < t.len() && t[a].0@ == k;
                assert(s[a].0@ == s[s.len() - 1].0@);
            }
        }
        assert(table_map(s).dom() =~= table_map(t).dom().insert(k)) by {
            assert forall|kk: Seq<char>| has_key(s, kk) <==> (has_key(t, kk) || kk == k) by {
                if has_key(s, kk) {
                    let a = choose|a: int| 0 <= a < s.len() && s[a].0@ == kk;
                    if a < t.len() {
                        assert(t[a].0@ == kk);
                    }
                }
                if has_key(t, kk) {
                    let a = choose|a: int| 0 <= a < t.len() && t[a].0@ == kk;
                    assert(s[a].0@ == kk);
                }
                if kk == k {
                    assert(s[s.len() - 1].0@ == kk);
                }
            }
        }
    }
}

/// Position of the pair with key `key`, if there is one.
pub fn find_key<V>(v: &Vec<(String, V)>, key: &str) -> (r: Option<usize>)
    ensures
        r matches Some(i) ==> i < v@.len() && v@[i as int].0@ == key@,
        r is None ==> !has_key(v@, key@),
{
    let mut i: usize = 0;
    while i < v.len()
        invariant
            i <= v@.len(),
            forall|j: int| 0 <= j < i ==> v@[j].0@ != key@,
        decreases v@.len() - i,
    {
        if str_eq(v[i].0.as_str(), key) {
            return Some(i);
        }
        i = i + 1;
    }
    None
}

/// Sets the value of `key` to `val`, replacing the value it had.
pub fn table_insert<V>(v: &mut Vec<(String, V)>, key: String, val: V)
    requires
        distinct_keys(old(v)@),
    ensures
        distinct_keys(final(v)@),
        table_map(final(v)@) == table_map(old(v)@).insert(key@, val),
{
    let ghost s0 = v@;
    let ghost k = key@;
    match find_key(v, key.as_str()) {
        Some(i) => {
            v.set(i, (key, val));
            proof {
                let s1 = v@;
                assert(s1 == s0.update(i as int, s1[i as int]));
                assert(distinct_keys(s1)) by {
                    assert forall|a: int, b: int|
                        0 <= a < s1.len() && 0 <= b < s1.len() && a != b implies s1[a].0@ != s1[b].0@ by {
                        if a != i && b != i {
                            assert(s1[a] == s0[a] && s1[b] == s0[b]);
                        } else if a == i {
                            assert(s0[i as int].0@ == k);
                            assert(s1[b] == s0[b]);
                        } else {
                            assert(s0[i as int].0@ == k);
                            assert(s1[a] == s0[a]);
                        }
                    }
                }
                assert(table_map(s1) =~= table_map(s0).insert(k, val)) by {
                    assert forall|kk: Seq<char>| has_key(s1, kk) <==> (has_key(s0, kk) || kk == k) by {
                        if has_key(s1, kk) {
                            let a = choose|a: int| 0 <= a < s1.len() && s1[a].0@ == kk;
                            if a != i {
                                assert(s0[a].0@ == kk);
                            }
                        }
                        if has_key(s0, kk) {
                            let a = choose|a: int| 0 <= a < s0.len() && s0[a].0@ == kk;
                            if a != i {
                                assert(s1[a].0@ == kk);
                            } else {
                                assert(s1[i as int].0@ == kk);
                            }
                        }
                        if kk == k {
                            assert(s1[i as int].0@ == kk);
                        }
                    }
                    assert forall|kk: Seq<char>| #[trigger] table_map(s1).dom().contains(kk) implies table_map(s1)[kk]
                        == table_map(s0).insert(k, val)[kk] by {
                        let a = choose|a: int| 0 <= a < s1.len() && s1[a].0@ == kk;
                        lemma_table_value_at(s1, a);
                        if a != i {
                            assert(s0[a] == s1[a]);
                            lemma_table_value_at(s0, a);
                        }
                    }
                }
            }
        },
        None => {
            v.push((key, val));
            proof {
                let s1 = v@;
                assert(s1 == s0.push(s1[s0.len() as int]));
                assert(distinct_keys(s1)) by {
                    assert forall|a: int, b: int|
                        0 <= a < s1.len() && 0 <= b < s1.len() && a != b implies s1[a].0@ != s1[b].0@ by {
                        if a < s0.len() && b < s0.len() {
                            assert(s1[a] == s0[a] && s1[b] == s0[b]);
                        } else if a < s0.len() {
                            assert(s1[a] == s0[a]);
                        } else {
                            assert(s1[b] == s0[b]);
                        }
                    }
                }
                assert(table_map(s1) =~= table_map(s0).insert(k, val)) by {
                    assert forall|kk: Seq<char>| has_key(s1, kk) <==> (has_key(s0, kk) || kk == k) by {
                        if has_key(s1, kk) {
                            let a = choose|a: int| 0 <= a < s1.len() && s1[a].0@ == kk;
                            if a < s0.len() {
                                assert(s0[a].0@ == kk);
                            }
                        }
                        if has_key(s0, kk) {
                            let a = choose|a: int| 0 <= a < s0.len() && s0[a].0@ == kk;
                            assert(s1[a].0@ == kk);
                        }
                        if kk == k {
                            assert(s1[s0.len() as int].0@ == kk);
                        }
                    }
                    assert forall|kk: Seq<char>| #[trigger] table_map(s1).dom().contains(kk) implies table_map(s1)[kk]
                        == table_map(s0).insert(k, val)[kk] by {
                        let a = choose|a: int| 0 <= a < s1.len() && s1[a].0@ == kk;
                        lemma_table_value_at(s1, a);
                        if a < s0.len() {
                            assert(s0[a] == s1[a]);
                            lemma_table_value_at(s0, a);
                        }
                    }
                }
            }
        },
    }
}

/// Removes the pair with key `key`, if there is one.
pub fn table_remove<V>(v: &mut Vec<(String, V)>, key: &str)
    requires
        distinct_keys(old(v)@),
    ensures
        distinct_keys(final(v)@),
        table_map(final(v)@) == table_map(old(v)@).remove(key@),
{
    let ghost s0 = v@;
    let ghost k = key@;
    match find_key(v, key) {
        Some(i) => {
            let _ = v.remove(i);
            proof {
                let s1 = v@;
                assert(s1 == s0.remove(i as int));
                assert(forall|a: int| 0 <= a < s1.len() ==> #[trigger] s1[a] == s0[if a < i { a } else { a + 1 }]);
                assert(distinct_keys(s1)) by {
                    assert forall|a: int, b: int|
                        0 <= a < s1.len() && 0 <= b < s1.len() && a != b implies s1[a].0@ != s1[b].0@ by {
                        let aa = if a < i { a } else { a + 1 };
                        let bb = if b < i { b } else { b + 1 };
                        assert(s1[a] == s0[aa] && s1[b] == s0[bb]);
                    }
                }
                assert(table_map(s1) =~= table_map(s0).remove(k)) by {
                    assert forall|kk: Seq<char>| has_key(s1, kk) <==> (has_key(s0, kk) && kk != k) by {
                        if has_key(s1, kk) {
                            let a = choose|a: int| 0 <= a < s1.len() && s1[a].0@ == kk;
                            let aa = if a < i { a } else { a + 1 };
                            assert(s0[aa].0@ == kk);
                            assert(aa != i);
                        }
                        if has_key(s0, kk) && kk != k {
                            let a = choose|a: int| 0 <= a < s0.len() && s0[a].0@ == kk;
                            assert(a != i);
                            let a1 = if a < i { a } else { a - 1 };
                            assert(s1[a1] == s0[a]);
                        }
                    }
                    assert forall|kk: Seq<char>| #[trigger] table_map(s1).dom().contains(kk) implies table_map(s1)[kk]
                        == table_map(s0).remove(k)[kk] by {
                        let a = choose|a: int| 0 <= a < s1.len() && s1[a].0@ == kk;
                        let aa = if a < i { a } else { a + 1 };
                        lemma_table_value_at(s1, a);
                        lemma_table_value_at(s0, aa);
                    }
                }
            }
        },
        None => {
            proof {
                assert(table_map(s0) =~= table_map(s0).remove(k));
            }
        },
    }
}

} // verus!
