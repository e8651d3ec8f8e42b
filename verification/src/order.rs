use vstd::prelude::*;

verus! {

/// Lexicographic order of character sequences by code point, which is the order of
/// `str`'s `Ord` (UTF-8 keeps the code point order byte by byte).
pub open spec fn seq_less(a: Seq<char>, b: Seq<char>) -> bool
    decreases a.len(),
{
    if a.len() == 0 {
        b.len() > 0
    } else if b.len() == 0 {
        false
    } else if a[0] != b[0] {
        (a[0] as int) < (b[0] as int)
    } else {
        seq_less(a.drop_first(), b.drop_first())
    }
}

pub proof fn lemma_seq_less_irreflexive(a: Seq<char>)
    ensures
        !seq_less(a, a),
    decreases a.len(),
{
    if a.len() > 0 {
        lemma_seq_less_irreflexive(a.drop_first());
    }
}

pub proof fn lemma_seq_less_transitive(a: Seq<char>, b: Seq<char>, c: Seq<char>)
    requires
        seq_less(a, b),
        seq_less(b, c),
    ensures
        seq_less(a, c),
    decreases a.len(),
{
    if a.len() > 0 && b.len() > 0 && c.len() > 0 {
        if a[0] == b[0] && b[0] == c[0] {
            lemma_seq_less_transitive(a.drop_first(), b.drop_first(), c.drop_first());
        }
    }
}

pub proof fn lemma_seq_less_total(a: Seq<char>, b: Seq<char>)
    ensures
        seq_less(a, b) || a == b || seq_less(b, a),
    decreases a.len(),
{
    if a.len() > 0 && b.len() > 0 {
        if a[0] == b[0] {
            lemma_seq_less_total(a.drop_first(), b.drop_first());
            if a.drop_first() == b.drop_first() {
                assert(a =~= seq![a[0]] + a.drop_first());
                assert(b =~= seq![b[0]] + b.drop_first());
            }
        } else {
            assert((a[0] as int) != (b[0] as int));
        }
    } else if a.len() == 0 && b.len() == 0 {
        assert(a =~= b);
    }
}

/// The order is lexicographic: at the first position where `a` and `b` differ, the
/// smaller character decides, whatever the lengths.
pub proof fn lemma_seq_less_first_difference(a: Seq<char>, b: Seq<char>, k: int)
    requires
        0 <= k < a.len(),
        k < b.len(),
        forall|j: int| 0 <= j < k ==> a[j] == b[j],
        a[k] != b[k],
    ensures
        seq_less(a, b) == ((a[k] as int) < (b[k] as int)),
        seq_less(b, a) == ((b[k] as int) < (a[k] as int)),
    decreases k,
{
    if k > 0 {
        assert(a[0] == b[0]);
        lemma_seq_less_first_difference(a.drop_first(), b.drop_first(), k - 1);
    }
}

/// A proper prefix comes first.
pub proof fn lemma_seq_less_prefix(a: Seq<char>, b: Seq<char>)
    requires
        a.len() < b.len(),
        forall|j: int| 0 <= j < a.len() ==> a[j] == b[j],
    ensures
        seq_less(a, b),
        !seq_less(b, a),
    decreases a.len(),
{
    if a.len() > 0 {
        assert(a[0] == b[0]);
        lemma_seq_less_prefix(a.drop_first(), b.drop_first());
    }
}

/// Whether `a` comes before `b` in `seq_less` order.
pub fn chars_less(a: &Vec<char>, b: &Vec<char>) -> (r: bool)
    ensures
        r == seq_less(a@, b@),
{
    let mut i: usize = 0;
    proof {
        assert(a@.skip(0) =~= a@);
        assert(b@.skip(0) =~= b@);
    }
    while i < a.len() && i < b.len()
        invariant
            i <= a@.len(),
            i <= b@.len(),
            seq_less(a@, b@) == seq_less(a@.skip(i as int), b@.skip(i as int)),
        decreases a.len() - i,
    {
        let x = a[i];
        let y = b[i];
        proof {
            assert(a@.skip(i as int)[0] == x);
            assert(b@.skip(i as int)[0] == y);
        }
        if x != y {
            return x < y;
        }
        proof {
            assert(a@.skip(i as int).drop_first() =~= a@.skip(i + 1));
            assert(b@.skip(i as int).drop_first() =~= b@.skip(i + 1));
        }
        i = i + 1;
    }
    i < b.len()
}

/// `perm` lists each of the positions `0..n` exactly once.
pub open spec fn is_permutation(perm: Seq<int>, n: int) -> bool {
    &&& perm.len() == n
    &&& forall|i: int| 0 <= i < n ==> 0 <= #[trigger] perm[i] < n
    &&& forall|i: int, j: int| 0 <= i < j < n ==> perm[i] != perm[j]
}

/// Taking the items at positions `perm` orders them by descending key, and items with
/// equal keys keep their original relative order.
pub open spec fn descending_stable(keys: Seq<Seq<char>>, perm: Seq<int>) -> bool {
    forall|i: int, j: int|
        0 <= i < j < perm.len() ==> seq_less(keys[#[trigger] perm[j]], keys[#[trigger] perm[i]])
            || (keys[perm[i]] == keys[perm[j]] && perm[i] < perm[j])
}

/// `out` is `items` rearranged by descending key, stably.
pub open spec fn sorted_descending_by<T>(items: Seq<T>, keys: Seq<Seq<char>>, out: Seq<T>) -> bool {
    exists|perm: Seq<int>| arranged_by(items, keys, out, perm)
}

/// `out` takes the items of `items` at positions `perm`, a stable descending
/// arrangement of `keys`.
pub open spec fn arranged_by<T>(items: Seq<T>, keys: Seq<Seq<char>>, out: Seq<T>, perm: Seq<int>) -> bool {
    &&& is_permutation(perm, items.len() as int)
    &&& descending_stable(keys, perm)
    &&& out.len() == items.len()
    &&& forall|k: int| 0 <= k < out.len() ==> out[k] == items[#[trigger] perm[k]]
}

/// Sorts `items` by their `keys` (one per item), largest key first; items with equal
/// keys stay in their original order, as with `sort_by` comparing the keys reversed.
pub fn sort_descending<T>(items: Vec<T>, keys: Vec<Vec<char>>) -> (out: Vec<T>)
    requires
        items@.len() == keys@.len(),
    ensures
        sorted_descending_by(items@, keys@.map_values(|k: Vec<char>| k@), out@),
{
    let ghost orig = items@;
    let ghost ks = keys@.map_values(|k: Vec<char>| k@);
    let n = items.len();
    let mut rest = items;
    let mut rest_keys = keys;
    let mut out: Vec<T> = Vec::new();
    let mut out_keys: Vec<Vec<char>> = Vec::new();
    let ghost mut perm: Seq<int> = Seq::empty();
    let mut i: usize = 0;
    while i < n
        invariant
            n == orig.len(),
            ks.len() == n,
            i <= n,
            rest@ == orig.skip(i as int),
            rest_keys@.len() == n - i,
            forall|q: int| 0 <= q < n - i ==> (#[trigger] rest_keys@[q])@ == ks[i + q],
            out@.len() == i,
            out_keys@.len() == i,
            perm.len() == i,
            forall|k: int| 0 <= k < i ==> 0 <= #[trigger] perm[k] < i,
            forall|k1: int, k2: int| 0 <= k1 < k2 < i ==> perm[k1] != perm[k2],
            descending_stable(ks, perm),
            forall|k: int| 0 <= k < i ==> out@[k] == orig[#[trigger] perm[k]],
            forall|k: int| 0 <= k < i ==> (#[trigger] out_keys@[k])@ == ks[perm[k]],
        decreases n - i,
    {
        let item = rest.remove(0);
        let key = rest_keys.remove(0);
        proof {
            assert(item == orig[i as int]);
            assert(key@ == ks[i as int]);
            assert(rest@ =~= orig.skip(i + 1));
        }
        let mut p: usize = 0;
        while p < out_keys.len() && !chars_less(&out_keys[p], &key)
            invariant
                p <= out_keys@.len(),
                out_keys@.len() == i,
                forall|k: int| 0 <= k < p ==> !seq_less((#[trigger] out_keys@[k])@, key@),
            decreases out_keys.len() - p,
        {
            p = p + 1;
        }
        proof {
            // Every key from position p on is smaller than the new key.
            assert forall|k: int| p <= k < i implies seq_less(
                (#[trigger] out_keys@[k])@,
                key@,
            ) by {
                assert(seq_less(out_keys@[p as int]@, key@));
                if k > p {
                    assert(seq_less(ks[perm[k]], ks[perm[p as int]]) || ks[perm[k]]
                        == ks[perm[p as int]]);
                    if ks[perm[k]] != ks[perm[p as int]] {
                        lemma_seq_less_transitive(ks[perm[k]], ks[perm[p as int]], key@);
                    }
                }
            }
            // Every key before position p is at least the new key.
            assert forall|k: int| 0 <= k < p implies seq_less(
                key@,
                (#[trigger] out_keys@[k])@,
            ) || key@ == out_keys@[k]@ by {
                lemma_seq_less_total(key@, out_keys@[k]@);
            }
        }
        let ghost old_perm = perm;
        let ghost old_out = out@;
        let ghost old_keys = out_keys@;
        out.insert(p, item);
        out_keys.insert(p, key);
        proof {
            perm = old_perm.insert(p as int, i as int);
            assert forall|k1: int, k2: int| 0 <= k1 < k2 < i + 1 implies seq_less(
                ks[#[trigger] perm[k2]],
                ks[#[trigger] perm[k1]],
            ) || (ks[perm[k1]] == ks[perm[k2]] && perm[k1] < perm[k2]) by {
                if k1 < p && k2 == p {
                    assert(old_keys[k1]@ == ks[old_perm[k1]]);
                } else if k1 == p && k2 > p {
                    assert(old_keys[k2 - 1]@ == ks[old_perm[k2 - 1]]);
                    assert(seq_less(old_keys[k2 - 1]@, key@));
                } else if k1 < p && k2 < p {
                    assert(perm[k1] == old_perm[k1] && perm[k2] == old_perm[k2]);
                } else if k1 < p && k2 > p {
                    assert(perm[k1] == old_perm[k1] && perm[k2] == old_perm[k2 - 1]);
                } else if k1 > p {
                    assert(perm[k1] == old_perm[k1 - 1] && perm[k2] == old_perm[k2 - 1]);
                }
            }
            assert forall|k: int| 0 <= k < i + 1 implies out@[k] == orig[#[trigger] perm[k]] by {
                if k < p {
                    assert(out@[k] == old_out[k]);
                } else if k > p {
                    assert(out@[k] == old_out[k - 1]);
                }
            }
            assert forall|k: int| 0 <= k < i + 1 implies (#[trigger] out_keys@[k])@
                == ks[perm[k]] by {
                if k < p {
                    assert(out_keys@[k] == old_keys[k]);
                } else if k > p {
                    assert(out_keys@[k] == old_keys[k - 1]);
                }
            }
            assert forall|k1: int, k2: int| 0 <= k1 < k2 < i + 1 implies perm[k1] != perm[k2] by {
                if k1 < p && k2 > p {
                    assert(perm[k2] == old_perm[k2 - 1]);
                } else if k1 > p {
                    assert(perm[k1] == old_perm[k1 - 1] && perm[k2] == old_perm[k2 - 1]);
                }
            }
            assert forall|q: int| 0 <= q < n - (i + 1) implies (#[trigger] rest_keys@[q])@ == ks[i
                + 1 + q] by {}
        }
        i = i + 1;
    }
    proof {
        assert(arranged_by(orig, ks, out@, perm));
    }
    out
}

} // verus!
