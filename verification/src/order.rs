//! Lexicographic order of strings by character, and sorting names by it.

use vstd::prelude::*;
use crate::text::views;

verus! {

/// `a` and `b` agree on their first `k` characters.
pub open spec fn agree_upto(a: Seq<char>, b: Seq<char>, k: int) -> bool {
    &&& 0 <= k <= a.len()
    &&& k <= b.len()
    &&& forall|j: int| 0 <= j < k ==> a[j] == b[j]
}

/// `a` sorts before `b`: after a common prefix of length `k`, either `a`
/// ends while `b` goes on, or `a`'s next character has the smaller code.
pub open spec fn lt_at(a: Seq<char>, b: Seq<char>, k: int) -> bool {
    &&& agree_upto(a, b, k)
    &&& ((k == a.len() && k < b.len()) || (k < a.len() && k < b.len() && (a[k] as int) < (b[k] as int)))
}

/// Strict lexicographic order of character sequences.
pub open spec fn lex_lt(a: Seq<char>, b: Seq<char>) -> bool {
    exists|k: int| #[trigger] lt_at(a, b, k)
}

proof fn lemma_lt_at_unique_prefix(a: Seq<char>, b: Seq<char>, k: int, m: int)
    requires
        lt_at(a, b, k),
        agree_upto(a, b, m),
    ensures
        m <= k,
{
    if m > k {
        assert(a[k] == b[k]);
    }
}

/// The order is irreflexive.
pub proof fn lemma_lex_irreflexive(a: Seq<char>)
    ensures
        !lex_lt(a, a),
{
    if lex_lt(a, a) {
        let k = choose|k: int| lt_at(a, a, k);
        assert(lt_at(a, a, k));
    }
}

/// The order is asymmetric.
pub proof fn lemma_lex_asymmetric(a: Seq<char>, b: Seq<char>)
    requires
        lex_lt(a, b),
    ensures
        !lex_lt(b, a),
{
    let k = choose|k: int| lt_at(a, b, k);
    if lex_lt(b, a) {
        let m = choose|m: int| lt_at(b, a, m);
        assert(agree_upto(a, b, m));
        lemma_lt_at_unique_prefix(a, b, k, m);
        assert(agree_upto(b, a, k));
        lemma_lt_at_unique_prefix(b, a, m, k);
        assert(k == m);
    }
}

/// The order is transitive.
pub proof fn lemma_lex_transitive(a: Seq<char>, b: Seq<char>, c: Seq<char>)
    requires
        lex_lt(a, b),
        lex_lt(b, c),
    ensures
        lex_lt(a, c),
{
    let k = choose|k: int| lt_at(a, b, k);
    let m = choose|m: int| lt_at(b, c, m);
    let p = if k < m { k } else { m };
    assert(lt_at(a, c, p));
}

/// Two different sequences are ordered one way or the other.
pub proof fn lemma_lex_total(a: Seq<char>, b: Seq<char>)
    requires
        a != b,
    ensures
        lex_lt(a, b) || lex_lt(b, a),
{
    let n = if a.len() < b.len() { a.len() } else { b.len() };
    if forall|j: int| 0 <= j < n ==> a[j] == b[j] {
        if a.len() == b.len() {
            assert(a =~= b);
        } else if a.len() < b.len() {
            assert(lt_at(a, b, n as int));
        } else {
            assert(lt_at(b, a, n as int));
        }
    } else {
        let d = choose|j: int| 0 <= j < n && a[j] != b[j];
        lemma_first_difference(a, b, d);
    }
}

proof fn lemma_first_difference(a: Seq<char>, b: Seq<char>, d: int)
    requires
        0 <= d < a.len(),
        d < b.len(),
        a[d] != b[d],
    ensures
        lex_lt(a, b) || lex_lt(b, a),
    decreases d,
{
    if forall|j: int| 0 <= j < d ==> a[j] == b[j] {
        if (a[d] as int) < (b[d] as int) {
            assert(lt_at(a, b, d));
        } else {
            assert((b[d] as int) < (a[d] as int));
            assert(lt_at(b, a, d));
        }
    } else {
        let e = choose|j: int| 0 <= j < d && a[j] != b[j];
        lemma_first_difference(a, b, e);
    }
}

/// `a` sorts strictly before `b`, comparing character codes in turn.
pub fn str_lt(a: &str, b: &str) -> (r: bool)
    ensures
        r == lex_lt(a@, b@),
{
    let na = a.unicode_len();
    let nb = b.unicode_len();
    let mut i: usize = 0;
    while i < na && i < nb
        invariant
            na == a@.len(),
            nb == b@.len(),
            agree_upto(a@, b@, i as int),
        decreases na - i,
    {
        let x = a.get_char(i);
        let y = b.get_char(i);
        if x != y {
            proof {
                if (x as u32) < (y as u32) {
                    assert(lt_at(a@, b@, i as int));
                } else {
                    if lex_lt(a@, b@) {
                        let k = choose|k: int| lt_at(a@, b@, k);
                        lemma_lt_at_unique_prefix(a@, b@, k, i as int);
                        assert(agree_upto(a@, b@, k));
                        if k > i {
                            assert(a@[i as int] == b@[i as int]);
                        }
                    }
                }
            }
            return (x as u32) < (y as u32);
        }
        i = i + 1;
    }
    proof {
        if i == na && i < nb {
            assert(lt_at(a@, b@, i as int));
        } else if lex_lt(a@, b@) {
            let k = choose|k: int| lt_at(a@, b@, k);
            lemma_lt_at_unique_prefix(a@, b@, k, i as int);
        }
    }
    i == na && i < nb
}

/// The names are in strictly increasing order.
pub open spec fn strictly_sorted(v: Seq<Seq<char>>) -> bool {
    forall|i: int, j: int| 0 <= i < j < v.len() ==> lex_lt(#[trigger] v[i], #[trigger] v[j])
}

/// `v` and `w` hold the same names.
pub open spec fn same_names(v: Seq<Seq<char>>, w: Seq<Seq<char>>) -> bool {
    &&& forall|i: int| 0 <= i < v.len() ==> w.contains(#[trigger] v[i])
    &&& forall|i: int| 0 <= i < w.len() ==> v.contains(#[trigger] w[i])
}

/// Sorts pairwise distinct names into increasing order.
pub fn sort_distinct_names(names: Vec<String>) -> (r: Vec<String>)
    requires
        forall|i: int, j: int| 0 <= i < j < names.len() ==> (#[trigger] names@[i])@ != (#[trigger] names@[j])@,
    ensures
        r.len() == names.len(),
        strictly_sorted(views(r@)),
        same_names(views(r@), views(names@)),
{
    let mut out: Vec<String> = Vec::new();
    let mut i: usize = 0;
    while i < names.len()
        invariant
            i <= names.len(),
            out.len() == i,
            forall|a: int, b: int| 0 <= a < b < names.len() ==> (#[trigger] names@[a])@ != (#[trigger] names@[b])@,
            strictly_sorted(views(out@)),
            same_names(views(out@), views(names@.subrange(0, i as int))),
        decreases names.len() - i,
    {
        let s = names[i].clone();
        let ghost old_out = views(out@);
        proof {
            assert forall|k: int| 0 <= k < old_out.len() implies old_out[k] != s@ by {
                assert(views(names@.subrange(0, i as int)).contains(old_out[k]));
                let m = choose|m: int| 0 <= m < i && views(names@.subrange(0, i as int))[m] == old_out[k];
                assert(names@[m]@ == old_out[k]);
            }
        }
        let mut pos: usize = 0;
        while pos < out.len() && str_lt(out[pos].as_str(), s.as_str())
            invariant
                pos <= out.len(),
                old_out == views(out@),
                forall|k: int| 0 <= k < pos ==> lex_lt(#[trigger] old_out[k], s@),
            decreases out.len() - pos,
        {
            pos = pos + 1;
        }
        proof {
            if pos < out.len() {
                assert(!lex_lt(old_out[pos as int], s@));
                assert(old_out[pos as int] != s@);
                lemma_lex_total(old_out[pos as int], s@);
                assert forall|k: int| pos <= k < old_out.len() implies lex_lt(s@, #[trigger] old_out[k]) by {
                    if k > pos {
                        lemma_lex_transitive(s@, old_out[pos as int], old_out[k]);
                    }
                }
            }
        }
        out.insert(pos, s);
        proof {
            let nv = views(out@);
            assert(nv =~= old_out.insert(pos as int, names@[i as int]@));
            assert forall|a: int, b: int| 0 <= a < b < nv.len() implies lex_lt(#[trigger] nv[a], #[trigger] nv[b]) by {
                if b < pos {
                } else if a < pos && b == pos {
                } else if a < pos {
                    assert(nv[b] == old_out[b - 1]);
                } else if a == pos {
                    assert(nv[b] == old_out[b - 1]);
                } else {
                    assert(nv[a] == old_out[a - 1]);
                    assert(nv[b] == old_out[b - 1]);
                }
            }
            let pre = views(names@.subrange(0, i as int));
            let post = views(names@.subrange(0, i + 1));
            assert(post =~= pre.push(names@[i as int]@));
            assert forall|k: int| 0 <= k < nv.len() implies post.contains(#[trigger] nv[k]) by {
                if k < pos {
                    assert(pre.contains(old_out[k]));
                    let m = choose|m: int| 0 <= m < pre.len() && pre[m] == old_out[k];
                    assert(post[m] == nv[k]);
                } else if k == pos {
                    assert(post[i as int] == nv[k]);
                } else {
                    assert(nv[k] == old_out[k - 1]);
                    assert(pre.contains(old_out[k - 1]));
                    let m = choose|m: int| 0 <= m < pre.len() && pre[m] == old_out[k - 1];
                    assert(post[m] == nv[k]);
                }
            }
            assert forall|k: int| 0 <= k < post.len() implies nv.contains(#[trigger] post[k]) by {
                if k < i {
                    assert(pre[k] == post[k]);
                    assert(old_out.contains(pre[k]));
                    let m = choose|m: int| 0 <= m < old_out.len() && old_out[m] == pre[k];
                    if m < pos {
                        assert(nv[m] == post[k]);
                    } else {
                        assert(nv[m + 1] == post[k]);
                    }
                } else {
                    assert(nv[pos as int] == post[k]);
                }
            }
        }
        i = i + 1;
    }
    proof {
        assert(names@.subrange(0, names.len() as int) =~= names@);
    }
    out
}

} // verus!
