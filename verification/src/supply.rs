use vstd::prelude::*;

verus! {

/// The sum of all values of a finite map.
pub open spec fn sum_values<K>(m: Map<K, i128>) -> int
    decreases m.dom().len(),
    when m.dom().finite()
{
    if m.dom().len() == 0 {
        0
    } else {
        let k = m.dom().choose();
        proof {
            assert(m.dom().contains(k));
            assert(m.remove(k).dom() =~= m.dom().remove(k));
        }
        m[k] + sum_values(m.remove(k))
    }
}

/// The value that `m` holds for `k`, read as 0 where it holds none.
pub open spec fn value_or_zero<K>(m: Map<K, i128>, k: K) -> int {
    if m.dom().contains(k) {
        m[k] as int
    } else {
        0
    }
}

/// The empty map sums to 0.
pub proof fn lemma_sum_empty<K>()
    ensures
        sum_values(Map::<K, i128>::empty()) == 0,
{
    assert(Map::<K, i128>::empty().dom() =~= Set::<K>::empty());
}

/// Any key of the map can be split off the sum, not only the one that the
/// definition happens to choose.
pub proof fn lemma_sum_remove<K>(m: Map<K, i128>, k: K)
    requires
        m.dom().finite(),
        m.dom().contains(k),
    ensures
        sum_values(m) == m[k] + sum_values(m.remove(k)),
    decreases m.dom().len(),
{
    let c = m.dom().choose();
    assert(m.dom().len() != 0);
    if c != k {
        let rest_c = m.remove(c);
        let rest_k = m.remove(k);
        assert(rest_c.dom() =~= m.dom().remove(c));
        assert(rest_k.dom() =~= m.dom().remove(k));
        lemma_sum_remove(rest_c, k);
        lemma_sum_remove(rest_k, c);
        assert(rest_c.remove(k) =~= rest_k.remove(c));
    }
}

/// Writing `v` under `k` changes the sum by the difference between `v` and
/// what `k` held before.
pub proof fn lemma_sum_insert<K>(m: Map<K, i128>, k: K, v: i128)
    requires
        m.dom().finite(),
    ensures
        sum_values(m.insert(k, v)) == sum_values(m) - value_or_zero(m, k) + v,
{
    let after = m.insert(k, v);
    assert(after.dom() =~= m.dom().insert(k));
    lemma_sum_remove(after, k);
    assert(after.remove(k) =~= m.remove(k));
    if m.dom().contains(k) {
        lemma_sum_remove(m, k);
    } else {
        assert(m.remove(k) =~= m);
    }
}

} // verus!
