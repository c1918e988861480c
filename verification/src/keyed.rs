//! String-keyed entries kept in a vector: a key is looked up at its first
//! occurrence, so the entries behave as a map from keys to values.

use vstd::prelude::*;
use crate::text::str_equal;

verus! {

/// Position `i` holds the first entry under `key`.
pub open spec fn first_at<V>(e: Seq<(String, V)>, key: Seq<char>, i: int) -> bool {
    &&& 0 <= i < e.len()
    &&& e[i].0@ == key
    &&& forall|j: int| 0 <= j < i ==> (#[trigger] e[j]).0@ != key
}

/// The value under `key`: that of its first entry.
pub open spec fn value_of<V>(e: Seq<(String, V)>, key: Seq<char>) -> Option<V> {
    if exists|i: int| first_at(e, key, i) {
        Some(e[choose|i: int| first_at(e, key, i)].1)
    } else {
        None
    }
}

pub proof fn lemma_value_at<V>(e: Seq<(String, V)>, key: Seq<char>, i: int)
    requires
        first_at(e, key, i),
    ensures
        value_of(e, key) == Some(e[i].1),
{
    let c = choose|k: int| first_at(e, key, k);
    if c < i {
        assert(e[c].0@ != key);
    } else if i < c {
        assert(e[i].0@ != key);
    }
}

pub proof fn lemma_value_absent<V>(e: Seq<(String, V)>, key: Seq<char>)
    requires
        forall|k: int| 0 <= k < e.len() ==> (#[trigger] e[k]).0@ != key,
    ensures
        value_of(e, key) is None,
{
}

/// The position of the first entry under `key`.
pub fn key_position<V>(e: &Vec<(String, V)>, key: &str) -> (r: Option<usize>)
    ensures
        r matches Some(i) ==> first_at(e@, key@, i as int),
        r is None ==> forall|k: int| 0 <= k < e@.len() ==> (#[trigger] e@[k]).0@ != key@,
        r is None <==> value_of(e@, key@) is None,
{
    let mut i: usize = 0;
    while i < e.len()
        invariant
            i <= e.len(),
            forall|k: int| 0 <= k < i ==> (#[trigger] e@[k]).0@ != key@,
        decreases e.len() - i,
    {
        if str_equal(e[i].0.as_str(), key) {
            proof {
                lemma_value_at(e@, key@, i as int);
            }
            return Some(i);
        }
        i = i + 1;
    }
    None
}

/// The value under `key`.
pub fn value_under<'a, V>(e: &'a Vec<(String, V)>, key: &str) -> (r: Option<&'a V>)
    ensures
        r is Some <==> value_of(e@, key@) is Some,
        r matches Some(v) ==> value_of(e@, key@) == Some(*v),
{
    match key_position(e, key) {
        Some(i) => {
            proof {
                lemma_value_at(e@, key@, i as int);
            }
            Some(&e[i].1)
        },
        None => None,
    }
}

/// Sets the value under `key`: its first entry is replaced, or a new entry
/// is appended.
pub fn put_value<V>(e: &mut Vec<(String, V)>, key: String, value: V)
    ensures
        forall|k: Seq<char>| #[trigger] value_of(final(e)@, k) == if k == key@ { Some(value) } else { value_of(old(e)@, k) },
{
    let ghost k0 = key@;
    match key_position(e, key.as_str()) {
        Some(i) => {
            let ghost before = e@;
            e.set(i, (key, value));
            proof {
                assert forall|k: Seq<char>| #[trigger] value_of(e@, k) == if k == k0 { Some(value) } else { value_of(before, k) } by {
                    if k == k0 {
                        assert(first_at(e@, k, i as int));
                        lemma_value_at(e@, k, i as int);
                    } else {
                        if exists|j: int| first_at(before, k, j) {
                            let j = choose|j: int| first_at(before, k, j);
                            assert(j != i);
                            assert(first_at(e@, k, j));
                            lemma_value_at(before, k, j);
                            lemma_value_at(e@, k, j);
                        } else {
                            if exists|j: int| first_at(e@, k, j) {
                                let j = choose|j: int| first_at(e@, k, j);
                                assert(j != i);
                                assert forall|q: int| 0 <= q < j implies (#[trigger] before[q]).0@ != k by {
                                    if q != i {
                                        assert(e@[q] == before[q]);
                                    }
                                }
                                assert(first_at(before, k, j));
                            }
                        }
                    }
                }
            }
        },
        None => {
            let ghost before = e@;
            e.push((key, value));
            proof {
                assert forall|k: Seq<char>| #[trigger] value_of(e@, k) == if k == k0 { Some(value) } else { value_of(before, k) } by {
                    let n = before.len() as int;
                    if k == k0 {
                        assert(first_at(e@, k, n));
                        lemma_value_at(e@, k, n);
                    } else {
                        if exists|j: int| first_at(before, k, j) {
                            let j = choose|j: int| first_at(before, k, j);
                            assert(first_at(e@, k, j));
                            lemma_value_at(before, k, j);
                            lemma_value_at(e@, k, j);
                        } else {
                            if exists|j: int| first_at(e@, k, j) {
                                let j = choose|j: int| first_at(e@, k, j);
                                assert(j != n);
                                assert forall|q: int| 0 <= q < j implies (#[trigger] before[q]).0@ != k by {
                                    assert(e@[q] == before[q]);
                                }
                                assert(first_at(before, k, j));
                            }
                        }
                    }
                }
            }
        },
    }
}

proof fn lemma_remove_first<V>(before: Seq<(String, V)>, key: Seq<char>, i: int)
    requires
        first_at(before, key, i),
    ensures
        forall|k: Seq<char>| k != key ==> #[trigger] value_of(before.remove(i), k) == value_of(before, k),
{
    let after = before.remove(i);
    assert forall|k: Seq<char>| k != key implies #[trigger] value_of(after, k) == value_of(before, k) by {
        if exists|j: int| first_at(before, k, j) {
            let j = choose|j: int| first_at(before, k, j);
            assert(j != i);
            let j2 = if j < i { j } else { j - 1 };
            assert(first_at(after, k, j2)) by {
                assert forall|q: int| 0 <= q < j2 implies (#[trigger] after[q]).0@ != k by {
                    if q < i {
                        assert(after[q] == before[q]);
                    } else {
                        assert(after[q] == before[q + 1]);
                    }
                }
            }
            lemma_value_at(before, k, j);
            lemma_value_at(after, k, j2);
        } else {
            if exists|j: int| first_at(after, k, j) {
                let j = choose|j: int| first_at(after, k, j);
                let j2 = if j < i { j } else { j + 1 };
                assert(first_at(before, k, j2)) by {
                    assert forall|q: int| 0 <= q < j2 implies (#[trigger] before[q]).0@ != k by {
                        if q < i {
                            assert(after[q] == before[q]);
                        } else if q == i {
                        } else {
                            assert(after[q - 1] == before[q]);
                        }
                    }
                }
            }
        }
    }
}

/// Removes every entry under `key`.
pub fn remove_key<V>(e: &mut Vec<(String, V)>, key: &str)
    ensures
        forall|k: Seq<char>| #[trigger] value_of(final(e)@, k) == if k == key@ { None } else { value_of(old(e)@, k) },
{
    let ghost start = e@;
    loop
        invariant
            start == old(e)@,
            forall|k: Seq<char>| k != key@ ==> #[trigger] value_of(e@, k) == value_of(start, k),
        decreases e.len(),
    {
        match key_position(e, key) {
            Some(i) => {
                let ghost before = e@;
                let _ = e.remove(i);
                proof {
                    lemma_remove_first(before, key@, i as int);
                }
            },
            None => {
                proof {
                    lemma_value_absent(e@, key@);
                    assert forall|k: Seq<char>| #[trigger] value_of(e@, k) == if k == key@ { None } else { value_of(start, k) } by {
                        if k != key@ {
                            assert(value_of(e@, k) == value_of(start, k));
                        }
                    }
                }
                return;
            },
        }
    }
}

} // verus!
