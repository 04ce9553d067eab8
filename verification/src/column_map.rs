use vstd::prelude::*;
use indexmap::IndexMap;
use rustc_hash::FxBuildHasher;

verus! {

/// `rustc_hash::FxBuildHasher`, the hasher the column maps are built with.
#[verifier::external_type_specification]
#[verifier::external_body]
pub struct ExFxBuildHasher(FxBuildHasher);

/// `indexmap::IndexMap`, an insertion-ordered hash map.
#[verifier::external_type_specification]
#[verifier::external_body]
#[verifier::reject_recursive_types(K)]
#[verifier::reject_recursive_types(V)]
#[verifier::reject_recursive_types(S)]
pub struct ExIndexMap<K, V, S>(IndexMap<K, V, S>);

/// The entries of an ordered column map, in order: a column id and its width (the bit pattern
/// of the width in pixels).
pub uninterp spec fn column_entries(m: IndexMap<u64, u32, FxBuildHasher>) -> Seq<(u64, u32)>;

/// Whether some entry has key `k`.
pub open spec fn has_key(s: Seq<(u64, u32)>, k: u64) -> bool {
    exists|i: int| 0 <= i < s.len() && s[i].0 == k
}

/// No key occurs twice.
pub open spec fn unique_keys(s: Seq<(u64, u32)>) -> bool {
    forall|i: int, j: int| 0 <= i < s.len() && 0 <= j < s.len() && i != j ==> s[i].0 != s[j].0
}

/// The index of the entry with key `k` (meaningful when there is one).
pub open spec fn key_index(s: Seq<(u64, u32)>, k: u64) -> int {
    choose|i: int| 0 <= i < s.len() && s[i].0 == k
}

/// The value stored under `k`, if any.
pub open spec fn lookup(s: Seq<(u64, u32)>, k: u64) -> Option<u32> {
    if has_key(s, k) {
        Some(s[key_index(s, k)].1)
    } else {
        None
    }
}

/// Stores `v` under `k`: an existing entry keeps its place, a new one goes last.
pub open spec fn entries_insert(s: Seq<(u64, u32)>, k: u64, v: u32) -> Seq<(u64, u32)> {
    if has_key(s, k) {
        s.update(key_index(s, k), (k, v))
    } else {
        s.push((k, v))
    }
}

/// Removes the entry with key `k`, if any, keeping the order of the others.
pub open spec fn entries_remove(s: Seq<(u64, u32)>, k: u64) -> Seq<(u64, u32)> {
    if has_key(s, k) {
        s.remove(key_index(s, k))
    } else {
        s
    }
}

/// Places `(k, v)` at `index`, moving an existing entry with key `k` there.
pub open spec fn entries_shift_insert(s: Seq<(u64, u32)>, index: int, k: u64, v: u32) -> Seq<
    (u64, u32),
> {
    if has_key(s, k) {
        s.remove(key_index(s, k)).insert(index, (k, v))
    } else {
        s.insert(index, (k, v))
    }
}

/// The index of an entry with a given key is the only one with that key.
pub proof fn lemma_key_index(s: Seq<(u64, u32)>, k: u64, i: int)
    requires
        unique_keys(s),
        0 <= i < s.len(),
        s[i].0 == k,
    ensures
        has_key(s, k),
        key_index(s, k) == i,
{
    assert(has_key(s, k));
    let j = key_index(s, k);
    assert(s[j].0 == k);
}

pub proof fn lemma_insert_unique(s: Seq<(u64, u32)>, k: u64, v: u32)
    requires
        unique_keys(s),
    ensures
        unique_keys(entries_insert(s, k, v)),
        entries_insert(s, k, v).len() == if has_key(s, k) { s.len() } else { s.len() + 1 },
        forall|i: int|
            0 <= i < s.len() ==> (#[trigger] entries_insert(s, k, v)[i]).0 == s[i].0,
        has_key(entries_insert(s, k, v), k),
        lookup(entries_insert(s, k, v), k) == Some(v),
        forall|q: u64| q != k ==> lookup(#[trigger] entries_insert(s, k, v), q) == lookup(s, q),
        forall|q: u64| #[trigger] has_key(entries_insert(s, k, v), q) <==> (has_key(s, q) || q == k),
{
    let r = entries_insert(s, k, v);
    if has_key(s, k) {
        let i = key_index(s, k);
        assert(r[i].0 == k);
        lemma_key_index(r, k, i);
    } else {
        assert(r[s.len() as int].0 == k);
        lemma_key_index(r, k, s.len() as int);
    }
    assert forall|q: u64| q != k implies lookup(#[trigger] entries_insert(s, k, v), q) == lookup(s, q) by {
        if has_key(s, q) {
            let j = key_index(s, q);
            assert(r[j].0 == q);
            lemma_key_index(r, q, j);
        } else {
            if has_key(r, q) {
                let j = key_index(r, q);
                assert(j < s.len() ==> s[j].0 == q);
            }
        }
    }
    assert forall|q: u64| #[trigger] has_key(entries_insert(s, k, v), q) <==> (has_key(s, q) || q == k) by {
        if has_key(s, q) {
            let j = key_index(s, q);
            assert(r[j].0 == q);
        }
        if has_key(r, q) && q != k {
            let j = key_index(r, q);
            assert(s[j].0 == q);
        }
    }
}

pub proof fn lemma_remove_unique(s: Seq<(u64, u32)>, k: u64)
    requires
        unique_keys(s),
    ensures
        unique_keys(entries_remove(s, k)),
        !has_key(entries_remove(s, k), k),
        forall|q: u64| q != k ==> lookup(#[trigger] entries_remove(s, k), q) == lookup(s, q),
        forall|q: u64| #[trigger] has_key(entries_remove(s, k), q) <==> (has_key(s, q) && q != k),
        entries_remove(s, k).len() == if has_key(s, k) { s.len() - 1 } else { s.len() as int },
{
    let r = entries_remove(s, k);
    if has_key(s, k) {
        let i = key_index(s, k);
        assert forall|a: int, b: int|
            0 <= a < r.len() && 0 <= b < r.len() && a != b implies r[a].0 != r[b].0 by {
            let a2 = if a < i { a } else { a + 1 };
            let b2 = if b < i { b } else { b + 1 };
            assert(r[a] == s[a2]);
            assert(r[b] == s[b2]);
        }
        assert forall|q: u64| #[trigger] has_key(entries_remove(s, k), q) <==> (has_key(s, q) && q != k) by {
            if has_key(r, q) {
                let j = key_index(r, q);
                let j2 = if j < i { j } else { j + 1 };
                assert(r[j] == s[j2]);
                if q == k {
                    assert(j2 != i);
                }
            }
            if has_key(s, q) && q != k {
                let j = key_index(s, q);
                assert(j != i);
                let j2 = if j < i { j } else { j - 1 };
                assert(r[j2] == s[j]);
            }
        }
        assert forall|q: u64| q != k implies lookup(#[trigger] entries_remove(s, k), q) == lookup(s, q) by {
            if has_key(s, q) {
                let j = key_index(s, q);
                let j2 = if j < i { j } else { j - 1 };
                assert(r[j2] == s[j]);
                lemma_key_index(r, q, j2);
            }
        }
    }
}

pub proof fn lemma_shift_insert_unique(s: Seq<(u64, u32)>, index: int, k: u64, v: u32)
    requires
        unique_keys(s),
        0 <= index <= entries_remove(s, k).len(),
    ensures
        unique_keys(entries_shift_insert(s, index, k, v)),
        entries_shift_insert(s, index, k, v)[index] == (k, v),
        entries_shift_insert(s, index, k, v) == entries_remove(s, k).insert(index, (k, v)),
{
    lemma_remove_unique(s, k);
    let r0 = entries_remove(s, k);
    let r = r0.insert(index, (k, v));
    assert forall|a: int, b: int|
        0 <= a < r.len() && 0 <= b < r.len() && a != b implies r[a].0 != r[b].0 by {
        if a != index && b != index {
            let a2 = if a < index { a } else { a - 1 };
            let b2 = if b < index { b } else { b - 1 };
            assert(r[a] == r0[a2]);
            assert(r[b] == r0[b2]);
        } else if a == index {
            let b2 = if b < index { b } else { b - 1 };
            assert(r[b] == r0[b2]);
        } else {
            let a2 = if a < index { a } else { a - 1 };
            assert(r[a] == r0[a2]);
        }
    }
}

/// A new, empty column map (`IndexMap::with_hasher`).
#[verifier::external_body]
pub(crate) fn column_map_new() -> (m: IndexMap<u64, u32, FxBuildHasher>)
    ensures
        column_entries(m) == Seq::<(u64, u32)>::empty(),
{
    IndexMap::with_hasher(FxBuildHasher)
}

/// The number of entries (`IndexMap::len`).
#[verifier::external_body]
pub(crate) fn column_map_len(m: &IndexMap<u64, u32, FxBuildHasher>) -> (n: usize)
    ensures
        n == column_entries(*m).len(),
{
    m.len()
}

/// The entry at an index, when the index is inside the map (`IndexMap::get_index`).
#[verifier::external_body]
pub(crate) fn column_map_get_index(m: &IndexMap<u64, u32, FxBuildHasher>, index: usize) -> (r:
    Option<(u64, u32)>)
    ensures
        r == if index < column_entries(*m).len() {
            Some(column_entries(*m)[index as int])
        } else {
            None::<(u64, u32)>
        },
{
    m.get_index(index).map(|(k, v)| (*k, *v))
}

/// The value stored under a key (`IndexMap::get`).
#[verifier::external_body]
pub(crate) fn column_map_get(m: &IndexMap<u64, u32, FxBuildHasher>, key: u64) -> (r: Option<u32>)
    requires
        unique_keys(column_entries(*m)),
    ensures
        r == lookup(column_entries(*m), key),
{
    m.get(&key).copied()
}

/// Whether a key is present (`IndexMap::contains_key`).
#[verifier::external_body]
pub(crate) fn column_map_contains_key(m: &IndexMap<u64, u32, FxBuildHasher>, key: u64) -> (r: bool)
    ensures
        r == has_key(column_entries(*m), key),
{
    m.contains_key(&key)
}

/// Stores a value under a key (`IndexMap::insert`): an existing key keeps its place and gets
/// the new value, a new key goes last.
#[verifier::external_body]
pub(crate) fn column_map_insert(m: &mut IndexMap<u64, u32, FxBuildHasher>, key: u64, value: u32) -> (r:
    Option<u32>)
    requires
        unique_keys(column_entries(*old(m))),
    ensures
        column_entries(*final(m)) == entries_insert(column_entries(*old(m)), key, value),
        r == lookup(column_entries(*old(m)), key),
{
    m.insert(key, value)
}

/// Replaces the value of the entry at an index inside the map, keeping its key
/// (`IndexMap::get_index_mut`).
#[verifier::external_body]
pub(crate) fn column_map_set_value_at(
    m: &mut IndexMap<u64, u32, FxBuildHasher>,
    index: usize,
    value: u32,
)
    requires
        index < column_entries(*old(m)).len(),
    ensures
        column_entries(*final(m)) == column_entries(*old(m)).update(
            index as int,
            (column_entries(*old(m))[index as int].0, value),
        ),
{
    if let Some((_, v)) = m.get_index_mut(index) {
        *v = value;
    }
}

/// Removes a key, shifting the entries after it (`IndexMap::shift_remove`).
#[verifier::external_body]
pub(crate) fn column_map_shift_remove(m: &mut IndexMap<u64, u32, FxBuildHasher>, key: u64) -> (r:
    Option<u32>)
    requires
        unique_keys(column_entries(*old(m))),
    ensures
        column_entries(*final(m)) == entries_remove(column_entries(*old(m)), key),
        r == lookup(column_entries(*old(m)), key),
{
    m.shift_remove(&key)
}

/// Places a key and value at an index, moving the key there if it is already present
/// (`IndexMap::shift_insert`). The call panics on an index past the end, which `requires`
/// leaves out.
#[verifier::external_body]
pub(crate) fn column_map_shift_insert(
    m: &mut IndexMap<u64, u32, FxBuildHasher>,
    index: usize,
    key: u64,
    value: u32,
) -> (r: Option<u32>)
    requires
        unique_keys(column_entries(*old(m))),
        has_key(column_entries(*old(m)), key) ==> index < column_entries(*old(m)).len(),
        !has_key(column_entries(*old(m)), key) ==> index <= column_entries(*old(m)).len(),
    ensures
        column_entries(*final(m)) == entries_shift_insert(
            column_entries(*old(m)),
            index as int,
            key,
            value,
        ),
        r == lookup(column_entries(*old(m)), key),
{
    m.shift_insert(index, key, value)
}

} // verus!
