use vstd::prelude::*;

verus! {

/// The map described by a sequence of key-value pairs, read front to back:
/// when a key repeats, the earliest entry wins.
pub open spec fn assoc_map<K: View, V: View>(s: Seq<(K, V)>) -> Map<K::V, V::V>
    decreases s.len(),
{
    if s.len() == 0 {
        Map::empty()
    } else {
        assoc_map(s.drop_first()).insert(s[0].0@, s[0].1@)
    }
}

/// No two entries of the sequence share a key.
pub open spec fn unique_keys<K: View, V: View>(s: Seq<(K, V)>) -> bool {
    forall|i: int, j: int| 0 <= i < j < s.len() ==> (#[trigger] s[i]).0@ != (#[trigger] s[j]).0@
}

/// A key is in the map exactly when some entry carries it.
pub proof fn lemma_assoc_contains<K: View, V: View>(s: Seq<(K, V)>, k: K::V)
    ensures
        assoc_map(s).contains_key(k) <==> exists|i: int| 0 <= i < s.len() && (#[trigger] s[i]).0@ == k,
    decreases s.len(),
{
    if s.len() > 0 {
        lemma_assoc_contains(s.drop_first(), k);
        if s[0].0@ == k {
            assert(s[0].0@ == k);
        } else {
            if assoc_map(s).contains_key(k) {
                let i = choose|i: int| 0 <= i < s.drop_first().len() && (#[trigger] s.drop_first()[i]).0@ == k;
                assert(s[i + 1].0@ == k);
            }
            if exists|i: int| 0 <= i < s.len() && (#[trigger] s[i]).0@ == k {
                let i = choose|i: int| 0 <= i < s.len() && (#[trigger] s[i]).0@ == k;
                assert(s.drop_first()[i - 1].0@ == k);
            }
        }
    }
}

/// The value at a key is the one of the first entry that carries the key.
pub proof fn lemma_assoc_value<K: View, V: View>(s: Seq<(K, V)>, i: int)
    requires
        0 <= i < s.len(),
        forall|j: int| 0 <= j < i ==> (#[trigger] s[j]).0@ != s[i].0@,
    ensures
        assoc_map(s).contains_key(s[i].0@),
        assoc_map(s)[s[i].0@] == s[i].1@,
    decreases s.len(),
{
    if i > 0 {
        assert(forall|j: int| 0 <= j < i - 1 ==> (#[trigger] s.drop_first()[j]).0@ != s.drop_first()[i - 1].0@);
        lemma_assoc_value(s.drop_first(), i - 1);
        assert(s[0].0@ != s[i].0@);
    }
}

/// Appending an entry with a fresh key inserts it into the map.
pub proof fn lemma_assoc_push<K: View, V: View>(s: Seq<(K, V)>, e: (K, V))
    requires
        forall|i: int| 0 <= i < s.len() ==> (#[trigger] s[i]).0@ != e.0@,
    ensures
        assoc_map(s.push(e)) == assoc_map(s).insert(e.0@, e.1@),
    decreases s.len(),
{
    if s.len() == 0 {
        assert(s.push(e).drop_first() =~= Seq::<(K, V)>::empty());
        assert(s.push(e)[0] == e);
        assert(assoc_map(s.push(e).drop_first()) == Map::<K::V, V::V>::empty());
        assert(assoc_map(s.push(e)) == assoc_map(s.push(e).drop_first()).insert(e.0@, e.1@));
        assert(assoc_map(s) == Map::<K::V, V::V>::empty());
        assert(assoc_map(s.push(e)) =~= assoc_map(s).insert(e.0@, e.1@));
    } else {
        assert(s.push(e).drop_first() =~= s.drop_first().push(e));
        lemma_assoc_push(s.drop_first(), e);
        assert(s[0].0@ != e.0@);
        assert(assoc_map(s.push(e)) =~= assoc_map(s).insert(e.0@, e.1@));
    }
}

/// Overwriting the value of the first entry that carries a key updates the
/// map at that key.
pub proof fn lemma_assoc_update<K: View, V: View>(s: Seq<(K, V)>, i: int, e: (K, V))
    requires
        0 <= i < s.len(),
        e.0@ == s[i].0@,
        forall|j: int| 0 <= j < i ==> (#[trigger] s[j]).0@ != s[i].0@,
    ensures
        assoc_map(s.update(i, e)) == assoc_map(s).insert(e.0@, e.1@),
    decreases s.len(),
{
    if i == 0 {
        assert(s.update(0, e).drop_first() =~= s.drop_first());
        assert(assoc_map(s.update(0, e)) =~= assoc_map(s).insert(e.0@, e.1@));
    } else {
        assert(s.update(i, e).drop_first() =~= s.drop_first().update(i - 1, e));
        assert(forall|j: int| 0 <= j < i - 1 ==> (#[trigger] s.drop_first()[j]).0@ != s.drop_first()[i - 1].0@);
        lemma_assoc_update(s.drop_first(), i - 1, e);
        assert(s[0].0@ != e.0@);
        assert(assoc_map(s.update(i, e)) =~= assoc_map(s).insert(e.0@, e.1@));
    }
}

/// With all keys unique, the number of entries equals the number of distinct
/// keys in the map.
pub proof fn lemma_assoc_card<K: View, V: View>(s: Seq<(K, V)>)
    requires
        unique_keys(s),
    ensures
        assoc_map(s).dom().finite(),
        assoc_map(s).dom().len() == s.len(),
    decreases s.len(),
{
    if s.len() == 0 {
        assert(assoc_map(s).dom() =~= Set::<K::V>::empty());
    } else {
        assert(unique_keys(s.drop_first()));
        lemma_assoc_card(s.drop_first());
        lemma_assoc_contains(s.drop_first(), s[0].0@);
        assert(forall|i: int|
            0 <= i < s.drop_first().len() ==> (#[trigger] s.drop_first()[i]).0@ != s[0].0@);
        assert(!assoc_map(s.drop_first()).contains_key(s[0].0@));
        assert(assoc_map(s).dom() =~= assoc_map(s.drop_first()).dom().insert(s[0].0@));
    }
}

/// Removing the entry of a key (all keys unique) removes the key from the map.
pub proof fn lemma_assoc_remove<K: View, V: View>(s: Seq<(K, V)>, i: int)
    requires
        0 <= i < s.len(),
        unique_keys(s),
    ensures
        assoc_map(s.remove(i)) == assoc_map(s).remove(s[i].0@),
        unique_keys(s.remove(i)),
    decreases s.len(),
{
    if i == 0 {
        assert(s.remove(0) =~= s.drop_first());
        lemma_assoc_contains(s.drop_first(), s[0].0@);
        assert(forall|j: int| 0 <= j < s.drop_first().len() ==> (#[trigger] s.drop_first()[j]).0@ != s[0].0@);
        assert(!assoc_map(s.drop_first()).contains_key(s[0].0@));
        assert(assoc_map(s.remove(0)) =~= assoc_map(s).remove(s[0].0@));
    } else {
        assert(s.remove(i).drop_first() =~= s.drop_first().remove(i - 1));
        assert(unique_keys(s.drop_first()));
        lemma_assoc_remove(s.drop_first(), i - 1);
        assert(s[0].0@ != s[i].0@);
        assert(assoc_map(s.remove(i)) =~= assoc_map(s).remove(s[i].0@));
    }
    assert forall|a: int, b: int| 0 <= a < b < s.remove(i).len() implies (#[trigger] s.remove(i)[a]).0@ != (
    #[trigger] s.remove(i)[b]).0@ by {
        let a0 = if a < i { a } else { a + 1 };
        let b0 = if b < i { b } else { b + 1 };
        assert(s.remove(i)[a] == s[a0]);
        assert(s.remove(i)[b] == s[b0]);
    }
}

} // verus!
