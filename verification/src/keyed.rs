//! Lists of entries keyed by a name, read as finite maps.
use vstd::prelude::*;

verus! {

/// The map that a list of entries stands for; when a key occurs twice, the later entry wins.
pub open spec fn to_map<V>(s: Seq<(Seq<char>, V)>) -> Map<Seq<char>, V>
    decreases s.len(),
{
    if s.len() == 0 {
        Map::empty()
    } else {
        to_map(s.drop_last()).insert(s.last().0, s.last().1)
    }
}

/// Appending an entry inserts it into the map.
pub proof fn lemma_push<V>(s: Seq<(Seq<char>, V)>, k: Seq<char>, v: V)
    ensures
        to_map(s.push((k, v))) == to_map(s).insert(k, v),
{
    assert(s.push((k, v)).drop_last() =~= s);
}

/// No key occurs twice in the list.
pub open spec fn unique_keys<V>(s: Seq<(Seq<char>, V)>) -> bool {
    forall|i: int, j: int| 0 <= i < s.len() && 0 <= j < s.len() && i != j ==> s[i].0 != s[j].0
}

/// Some entry of the list has the key `k`.
pub open spec fn has_key<V>(s: Seq<(Seq<char>, V)>, k: Seq<char>) -> bool {
    exists|i: int| 0 <= i < s.len() && s[i].0 == k
}

/// The keys of the list, in order.
pub open spec fn keys<V>(s: Seq<(Seq<char>, V)>) -> Seq<Seq<char>> {
    s.map_values(|e: (Seq<char>, V)| e.0)
}

/// The map holds exactly the keys of the list.
pub proof fn lemma_dom<V>(s: Seq<(Seq<char>, V)>, k: Seq<char>)
    ensures
        to_map(s).dom().contains(k) <==> has_key(s, k),
        to_map(s).dom().finite(),
    decreases s.len(),
{
    if s.len() > 0 {
        lemma_dom(s.drop_last(), k);
        if has_key(s.drop_last(), k) {
            let i = choose|i: int| 0 <= i < s.drop_last().len() && s.drop_last()[i].0 == k;
            assert(s[i].0 == k);
        }
        if has_key(s, k) && k != s.last().0 {
            let i = choose|i: int| 0 <= i < s.len() && s[i].0 == k;
            assert(i < s.len() - 1);
            assert(s.drop_last()[i].0 == k);
        }
        if k == s.last().0 {
            assert(s[s.len() - 1].0 == k);
        }
    }
}

/// With unique keys, an entry of the list is what the map holds at its key.
pub proof fn lemma_index<V>(s: Seq<(Seq<char>, V)>, i: int)
    requires
        unique_keys(s),
        0 <= i < s.len(),
    ensures
        to_map(s).dom().contains(s[i].0),
        to_map(s)[s[i].0] == s[i].1,
    decreases s.len(),
{
    if i < s.len() - 1 {
        let t = s.drop_last();
        assert(unique_keys(t)) by {
            assert forall|a: int, b: int| 0 <= a < t.len() && 0 <= b < t.len() && a != b implies t[a].0 != t[b].0 by {
                assert(t[a] == s[a] && t[b] == s[b]);
            }
        }
        assert(t[i] == s[i]);
        lemma_index(t, i);
        assert(s[i].0 != s[s.len() - 1].0);
    }
}

/// Removing an entry of a list with unique keys removes its key from the map.
pub proof fn lemma_remove<V>(s: Seq<(Seq<char>, V)>, i: int)
    requires
        unique_keys(s),
        0 <= i < s.len(),
    ensures
        unique_keys(s.remove(i)),
        to_map(s.remove(i)) == to_map(s).remove(s[i].0),
    decreases s.len(),
{
    let r = s.remove(i);
    assert(unique_keys(r)) by {
        assert forall|a: int, b: int| 0 <= a < r.len() && 0 <= b < r.len() && a != b implies r[a].0 != r[b].0 by {
            let sa = if a < i { a } else { a + 1 };
            let sb = if b < i { b } else { b + 1 };
            assert(r[a] == s[sa] && r[b] == s[sb]);
        }
    }
    let t = s.drop_last();
    assert(unique_keys(t)) by {
        assert forall|a: int, b: int| 0 <= a < t.len() && 0 <= b < t.len() && a != b implies t[a].0 != t[b].0 by {
            assert(t[a] == s[a] && t[b] == s[b]);
        }
    }
    if i == s.len() - 1 {
        assert(r =~= t);
        lemma_dom(t, s[i].0);
        if has_key(t, s[i].0) {
            let j = choose|j: int| 0 <= j < t.len() && t[j].0 == s[i].0;
            assert(s[j].0 == s[i].0);
        }
        assert(to_map(t) =~= to_map(s).remove(s[i].0));
    } else {
        lemma_remove(t, i);
        assert(r.drop_last() =~= t.remove(i));
        assert(r.last() == s.last());
        assert(s[i].0 != s.last().0);
        assert(to_map(r) =~= to_map(s).remove(s[i].0));
    }
}

/// Replacing the value of an entry of a list with unique keys replaces it in the map.
pub proof fn lemma_update<V>(s: Seq<(Seq<char>, V)>, i: int, v: V)
    requires
        unique_keys(s),
        0 <= i < s.len(),
    ensures
        unique_keys(s.update(i, (s[i].0, v))),
        to_map(s.update(i, (s[i].0, v))) == to_map(s).insert(s[i].0, v),
    decreases s.len(),
{
    let r = s.update(i, (s[i].0, v));
    assert(unique_keys(r)) by {
        assert forall|a: int, b: int| 0 <= a < r.len() && 0 <= b < r.len() && a != b implies r[a].0 != r[b].0 by {
            assert(r[a].0 == s[a].0 && r[b].0 == s[b].0);
        }
    }
    let t = s.drop_last();
    assert(unique_keys(t)) by {
        assert forall|a: int, b: int| 0 <= a < t.len() && 0 <= b < t.len() && a != b implies t[a].0 != t[b].0 by {
            assert(t[a] == s[a] && t[b] == s[b]);
        }
    }
    if i == s.len() - 1 {
        assert(r.drop_last() =~= t);
        assert(to_map(r) =~= to_map(s).insert(s[i].0, v));
    } else {
        lemma_update(t, i, v);
        assert(r.drop_last() =~= t.update(i, (t[i].0, v)));
        assert(s[i].0 != s.last().0);
        assert(to_map(r) =~= to_map(s).insert(s[i].0, v));
    }
}

/// Appending an entry with a new key keeps the keys unique.
pub proof fn lemma_push_unique<V>(s: Seq<(Seq<char>, V)>, k: Seq<char>, v: V)
    requires
        unique_keys(s),
        !has_key(s, k),
    ensures
        unique_keys(s.push((k, v))),
        to_map(s.push((k, v))) == to_map(s).insert(k, v),
{
    let r = s.push((k, v));
    assert(r.drop_last() =~= s);
    assert forall|a: int, b: int| 0 <= a < r.len() && 0 <= b < r.len() && a != b implies r[a].0 != r[b].0 by {
        if a < s.len() && b < s.len() {
            assert(r[a] == s[a] && r[b] == s[b]);
        } else if a < s.len() {
            assert(r[a] == s[a]);
        } else {
            assert(r[b] == s[b]);
        }
    }
}

/// The keys of a list with unique keys are the domain of its map, each once.
pub proof fn lemma_keys<V>(s: Seq<(Seq<char>, V)>)
    requires
        unique_keys(s),
    ensures
        keys(s).no_duplicates(),
        keys(s).to_set() == to_map(s).dom(),
        keys(s).len() == to_map(s).dom().len(),
{
    let ks = keys(s);
    assert forall|a: int, b: int| 0 <= a < ks.len() && 0 <= b < ks.len() && a != b implies ks[a] != ks[b] by {
        assert(ks[a] == s[a].0 && ks[b] == s[b].0);
    }
    assert forall|k: Seq<char>| ks.to_set().contains(k) <==> to_map(s).dom().contains(k) by {
        lemma_dom(s, k);
        if ks.contains(k) {
            let i = choose|i: int| 0 <= i < ks.len() && ks[i] == k;
            assert(s[i].0 == k);
        }
        if has_key(s, k) {
            let i = choose|i: int| 0 <= i < s.len() && s[i].0 == k;
            assert(ks[i] == k);
        }
    }
    assert(ks.to_set() =~= to_map(s).dom());
    ks.unique_seq_to_set();
}

/// `i` is the first position of `x` in `s`.
pub open spec fn is_first_index<A>(s: Seq<A>, x: A, i: int) -> bool {
    &&& 0 <= i < s.len()
    &&& s[i] == x
    &&& forall|j: int| 0 <= j < i ==> s[j] != x
}

/// The first position of `x` in `s`, if it occurs.
pub open spec fn first_index_of<A>(s: Seq<A>, x: A) -> Option<int> {
    if exists|i: int| is_first_index(s, x, i) {
        Some(choose|i: int| is_first_index(s, x, i))
    } else {
        None
    }
}

/// The first position is the one found by a scan from the front; without one, `x` is absent.
pub proof fn lemma_first_index_of<A>(s: Seq<A>, x: A, i: int)
    requires
        is_first_index(s, x, i),
    ensures
        first_index_of(s, x) == Some(i),
{
    let k = choose|k: int| is_first_index(s, x, k);
    assert(is_first_index(s, x, k));
    if k < i {
        assert(s[k] != x);
    } else if i < k {
        assert(s[i] != x);
    }
}

/// When `x` does not occur, it has no first position.
pub proof fn lemma_first_index_absent<A>(s: Seq<A>, x: A)
    requires
        forall|j: int| 0 <= j < s.len() ==> s[j] != x,
    ensures
        first_index_of(s, x) is None,
{
}

/// Finding a first position is finding an occurrence.
pub proof fn lemma_first_index_some<A>(s: Seq<A>, x: A)
    ensures
        first_index_of(s, x) is Some <==> s.contains(x),
        first_index_of(s, x) matches Some(i) ==> is_first_index(s, x, i),
{
    if s.contains(x) {
        let j = choose|j: int| 0 <= j < s.len() && s[j] == x;
        lemma_first_occurrence(s, x, j);
    }
}

proof fn lemma_first_occurrence<A>(s: Seq<A>, x: A, j: int)
    requires
        0 <= j < s.len(),
        s[j] == x,
    ensures
        exists|i: int| is_first_index(s, x, i),
    decreases j,
{
    if forall|k: int| 0 <= k < j ==> s[k] != x {
        assert(is_first_index(s, x, j));
    } else {
        let k = choose|k: int| 0 <= k < j && s[k] == x;
        lemma_first_occurrence(s, x, k);
    }
}

} // verus!
