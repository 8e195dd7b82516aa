use vstd::prelude::*;

verus! {

/// The sum of `f` over the entries of `s`.
pub open spec fn sum_of<T>(s: Seq<T>, f: spec_fn(T) -> int) -> int
    decreases s.len(),
{
    if s.len() == 0 {
        0
    } else {
        sum_of(s.drop_last(), f) + f(s.last())
    }
}

/// Extending a prefix by one entry adds that entry's value.
pub proof fn lemma_sum_take_step<T>(s: Seq<T>, f: spec_fn(T) -> int, i: int)
    requires
        0 <= i < s.len(),
    ensures
        sum_of(s.take(i + 1), f) == sum_of(s.take(i), f) + f(s[i]),
{
    assert(s.take(i + 1).drop_last() =~= s.take(i));
}

/// The sum over a concatenation is the sum of the sums.
pub proof fn lemma_sum_concat<T>(a: Seq<T>, b: Seq<T>, f: spec_fn(T) -> int)
    ensures
        sum_of(a + b, f) == sum_of(a, f) + sum_of(b, f),
    decreases b.len(),
{
    if b.len() > 0 {
        assert((a + b).drop_last() =~= a + b.drop_last());
        lemma_sum_concat(a, b.drop_last(), f);
    } else {
        assert(a + b =~= a);
    }
}

/// The sum splits around position `k`.
pub proof fn lemma_sum_split<T>(s: Seq<T>, f: spec_fn(T) -> int, k: int)
    requires
        0 <= k < s.len(),
    ensures
        sum_of(s, f) == sum_of(s.take(k), f) + f(s[k]) + sum_of(s.skip(k + 1), f),
{
    let one = seq![s[k]];
    assert(s =~= s.take(k) + one + s.skip(k + 1));
    lemma_sum_concat(s.take(k) + one, s.skip(k + 1), f);
    lemma_sum_concat(s.take(k), one, f);
    assert(one.drop_last() =~= Seq::<T>::empty());
    assert(sum_of(one, f) == sum_of(one.drop_last(), f) + f(one.last()));
}

/// Replacing the entry at `k` changes the sum by the difference of the two values.
pub proof fn lemma_sum_update<T>(s: Seq<T>, f: spec_fn(T) -> int, k: int, x: T)
    requires
        0 <= k < s.len(),
    ensures
        sum_of(s.update(k, x), f) == sum_of(s, f) - f(s[k]) + f(x),
{
    let t = s.update(k, x);
    lemma_sum_split(s, f, k);
    lemma_sum_split(t, f, k);
    assert(t.take(k) =~= s.take(k));
    assert(t.skip(k + 1) =~= s.skip(k + 1));
}

/// Inserting an entry adds its value.
pub proof fn lemma_sum_insert<T>(s: Seq<T>, f: spec_fn(T) -> int, k: int, x: T)
    requires
        0 <= k <= s.len(),
    ensures
        sum_of(s.insert(k, x), f) == sum_of(s, f) + f(x),
{
    let t = s.insert(k, x);
    lemma_sum_split(t, f, k);
    assert(t.take(k) =~= s.take(k));
    assert(t.skip(k + 1) =~= s.skip(k));
    assert(s =~= s.take(k) + s.skip(k));
    lemma_sum_concat(s.take(k), s.skip(k), f);
}

/// Removing an entry takes away its value.
pub proof fn lemma_sum_remove<T>(s: Seq<T>, f: spec_fn(T) -> int, k: int)
    requires
        0 <= k < s.len(),
    ensures
        sum_of(s.remove(k), f) == sum_of(s, f) - f(s[k]),
{
    lemma_sum_insert(s.remove(k), f, k, s[k]);
    assert(s.remove(k).insert(k, s[k]) =~= s);
}

/// Exchanging two entries leaves the sum as it was.
pub proof fn lemma_sum_swap<T>(s: Seq<T>, f: spec_fn(T) -> int, i: int, j: int)
    requires
        0 <= i < s.len(),
        0 <= j < s.len(),
    ensures
        sum_of(s.update(i, s[j]).update(j, s[i]), f) == sum_of(s, f),
{
    let t = s.update(i, s[j]);
    lemma_sum_update(s, f, i, s[j]);
    lemma_sum_update(t, f, j, s[i]);
    if i == j {
        assert(t.update(j, s[i]) =~= s);
    }
}

} // verus!
