//! Ordered maps of the `indexmap` crate, with string keys: entries keep the order in
//! which their keys were first inserted.
use crate::text::is_first_index;
use indexmap::IndexMap;
use vstd::prelude::*;

verus! {

#[verifier::external_type_specification]
#[verifier::external_body]
#[verifier::reject_recursive_types(K)]
#[verifier::reject_recursive_types(V)]
#[verifier::reject_recursive_types(S)]
pub struct ExIndexMap<K, V, S>(IndexMap<K, V, S>);

/// Name for the entries of a map of strings, in their order.
pub uninterp spec fn string_entries(m: IndexMap<String, String>) -> Seq<(Seq<char>, Seq<char>)>;

/// The keys of a list of entries, in order.
pub open spec fn keys_of<V>(entries: Seq<(Seq<char>, V)>) -> Seq<Seq<char>> {
    entries.map_values(|e: (Seq<char>, V)| e.0)
}

/// Inserting into an ordered map: an entry with the key keeps its place and takes the new
/// value, or the entry goes last.
pub open spec fn inserted<V>(entries: Seq<(Seq<char>, V)>, key: Seq<char>, value: V) -> Seq<(Seq<char>, V)> {
    if keys_of(entries).contains(key) {
        let i = choose|i: int| is_first_index(keys_of(entries), key, i);
        entries.update(i, (key, value))
    } else {
        entries.push((key, value))
    }
}

/// Calls `IndexMap::new`: a map without entries.
#[verifier::external_body]
pub fn string_map_new() -> (m: IndexMap<String, String>)
    ensures
        string_entries(m) == Seq::<(Seq<char>, Seq<char>)>::empty(),
{
    IndexMap::new()
}

/// Calls `IndexMap::insert`: as its documentation states, an entry with an equal key keeps
/// its place and takes the new value; else the entry is inserted last.
#[verifier::external_body]
pub fn string_map_insert(m: &mut IndexMap<String, String>, key: String, value: String)
    ensures
        string_entries(*final(m)) == inserted(string_entries(*old(m)), key@, value@),
{
    m.insert(key, value);
}

/// Inserting each of `pairs` in turn.
pub open spec fn inserted_all(entries: Seq<(Seq<char>, Seq<char>)>, pairs: Seq<(Seq<char>, Seq<char>)>) -> Seq<
    (Seq<char>, Seq<char>),
>
    decreases pairs.len(),
{
    if pairs.len() == 0 {
        entries
    } else {
        inserted(inserted_all(entries, pairs.drop_last()), pairs.last().0, pairs.last().1)
    }
}

/// The view of a list of string pairs.
pub open spec fn str_pairs(pairs: Seq<(&str, &str)>) -> Seq<(Seq<char>, Seq<char>)> {
    pairs.map_values(|p: (&str, &str)| (p.0@, p.1@))
}

/// Inserts each of `pairs` in turn.
pub fn insert_pairs(m: &mut IndexMap<String, String>, pairs: &Vec<(&str, &str)>)
    ensures
        string_entries(*final(m)) == inserted_all(string_entries(*old(m)), str_pairs(pairs@)),
{
    let ghost start = string_entries(*m);
    let ghost all = str_pairs(pairs@);
    let mut i: usize = 0;
    assert(all.take(0) =~= Seq::<(Seq<char>, Seq<char>)>::empty());
    while i < pairs.len()
        invariant
            all == str_pairs(pairs@),
            i <= pairs@.len(),
            string_entries(*m) == inserted_all(start, all.take(i as int)),
        decreases pairs@.len() - i,
    {
        let (k, v) = pairs[i];
        assert(all.take(i + 1).drop_last() =~= all.take(i as int));
        string_map_insert(m, k.to_owned(), v.to_owned());
        i += 1;
    }
    assert(all.take(i as int) =~= all);
}


/// The value of the first entry with this key, if any.
pub open spec fn lookup<V>(entries: Seq<(Seq<char>, V)>, key: Seq<char>) -> Option<V> {
    if keys_of(entries).contains(key) {
        let i = choose|i: int| is_first_index(keys_of(entries), key, i);
        Some(entries[i].1)
    } else {
        None
    }
}

/// After inserting each of `pairs` in turn, a key reads as the value of its last
/// occurrence among the pairs.
pub proof fn lemma_inserted_all_last(
    entries: Seq<(Seq<char>, Seq<char>)>,
    pairs: Seq<(Seq<char>, Seq<char>)>,
    k: int,
)
    requires
        0 <= k < pairs.len(),
        forall|j: int| k < j < pairs.len() ==> (#[trigger] pairs[j]).0 != pairs[k].0,
    ensures
        lookup(inserted_all(entries, pairs), pairs[k].0) == Some(pairs[k].1),
    decreases pairs.len(),
{
    let n = pairs[k].0;
    let prev = pairs.drop_last();
    let before = inserted_all(entries, prev);
    if k == pairs.len() - 1 {
        assert(n.push('x').len() != n.len());
        lemma_inserted_reads_back(before, n, pairs[k].1, n.push('x'));
    } else {
        assert forall|j: int| k < j < prev.len() implies (#[trigger] prev[j]).0 != prev[k].0 by {
            assert(prev[j] == pairs[j]);
        }
        lemma_inserted_all_last(entries, prev, k);
        assert(pairs.last() == pairs[pairs.len() - 1]);
        lemma_inserted_reads_back(before, pairs.last().0, pairs.last().1, n);
    }
}

/// After inserting a value under a key, the key reads back that value, every other key
/// reads as before, and no entry is lost.
pub proof fn lemma_inserted_reads_back<V>(entries: Seq<(Seq<char>, V)>, key: Seq<char>, value: V, other: Seq<char>)
    requires
        other != key,
    ensures
        lookup(inserted(entries, key, value), key) == Some(value),
        lookup(inserted(entries, key, value), other) == lookup(entries, other),
        forall|k: Seq<char>| keys_of(entries).contains(k) ==> keys_of(inserted(entries, key, value)).contains(k),
{
    let ks = keys_of(entries);
    let after = inserted(entries, key, value);
    let ka = keys_of(after);
    if ks.contains(key) {
        let i = choose|i: int| is_first_index(ks, key, i);
        crate::text::lemma_first_index_exists(ks, key);
        assert(ka =~= ks.update(i, key));
        assert(is_first_index(ka, key, i));
        let j = choose|j: int| is_first_index(ka, key, j);
        crate::text::lemma_first_index_unique(ka, key, i, j);
        if ks.contains(other) {
            let m = choose|m: int| is_first_index(ks, other, m);
            crate::text::lemma_first_index_exists(ks, other);
            assert(is_first_index(ka, other, m));
            let n = choose|n: int| is_first_index(ka, other, n);
            crate::text::lemma_first_index_unique(ka, other, m, n);
        } else {
            assert(!ka.contains(other)) by {
                if ka.contains(other) {
                    let t = choose|t: int| 0 <= t < ka.len() && ka[t] == other;
                    assert(ks[t] == other);
                }
            }
        }
        assert forall|k: Seq<char>| ks.contains(k) implies ka.contains(k) by {
            let t = choose|t: int| 0 <= t < ks.len() && ks[t] == k;
            if t == i {
                assert(ka[i] == key);
                assert(ks[i] == key);
            } else {
                assert(ka[t] == k);
            }
        }
    } else {
        assert(ka =~= ks.push(key));
        assert(is_first_index(ka, key, ks.len() as int));
        let j = choose|j: int| is_first_index(ka, key, j);
        crate::text::lemma_first_index_unique(ka, key, ks.len() as int, j);
        if ks.contains(other) {
            let m = choose|m: int| is_first_index(ks, other, m);
            crate::text::lemma_first_index_exists(ks, other);
            assert(is_first_index(ka, other, m));
            let n = choose|n: int| is_first_index(ka, other, n);
            crate::text::lemma_first_index_unique(ka, other, m, n);
        } else {
            assert(!ka.contains(other)) by {
                if ka.contains(other) {
                    let t = choose|t: int| 0 <= t < ka.len() && ka[t] == other;
                    assert(ks[t] == other);
                }
            }
        }
        assert forall|k: Seq<char>| ks.contains(k) implies ka.contains(k) by {
            let t = choose|t: int| 0 <= t < ks.len() && ks[t] == k;
            assert(ka[t] == k);
        }
    }
}

/// Inserting under a key that is there already keeps the number and order of the keys.
pub proof fn lemma_inserted_keeps_place<V>(entries: Seq<(Seq<char>, V)>, key: Seq<char>, value: V)
    requires
        keys_of(entries).contains(key),
    ensures
        keys_of(inserted(entries, key, value)) == keys_of(entries),
{
    let ks = keys_of(entries);
    let i = choose|i: int| is_first_index(ks, key, i);
    crate::text::lemma_first_index_exists(ks, key);
    assert(keys_of(inserted(entries, key, value)) =~= ks);
}

} // verus!
