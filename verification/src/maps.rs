//! Insertion-ordered maps and sets from the `indexmap` crate, as the font
//! model uses them, with their contents modelled as sequences of entries.
//!
//! An `IndexMap` keeps its entries in insertion order with every key at most
//! once. The helpers below describe lookups by the first entry with a key,
//! which for such a map is the only one.
use vstd::prelude::*;

use indexmap::{IndexMap, IndexSet};

use crate::font::{CodepointMapping, CodepointMappingView, Glyph, GlyphView};

verus! {

#[verifier::external_type_specification]
#[verifier::external_body]
#[verifier::reject_recursive_types(K)]
#[verifier::reject_recursive_types(V)]
#[verifier::reject_recursive_types(S)]
pub struct ExIndexMap<K, V, S>(IndexMap<K, V, S>);

#[verifier::external_type_specification]
#[verifier::external_body]
#[verifier::reject_recursive_types(T)]
#[verifier::reject_recursive_types(S)]
pub struct ExIndexSet<T, S>(IndexSet<T, S>);

// ---------------------------------------------------------------------------
// Entry sequences

/// Some entry of `s` has key `k`.
pub open spec fn has_key<K, V>(s: Seq<(K, V)>, k: K) -> bool {
    exists|i: int| 0 <= i < s.len() && #[trigger] s[i].0 == k
}

/// `i` is the first entry of `s` with key `k`.
pub open spec fn is_key_index<K, V>(s: Seq<(K, V)>, k: K, i: int) -> bool {
    &&& 0 <= i < s.len()
    &&& s[i].0 == k
    &&& forall|j: int| 0 <= j < i ==> #[trigger] s[j].0 != k
}

/// The position of the first entry of `s` with key `k` (meaningful when
/// `has_key(s, k)`).
pub open spec fn key_index<K, V>(s: Seq<(K, V)>, k: K) -> int {
    choose|i: int| is_key_index(s, k, i)
}

/// The value that `s` maps `k` to, if any.
pub open spec fn lookup<K, V>(s: Seq<(K, V)>, k: K) -> Option<V> {
    if has_key(s, k) {
        Some(s[key_index(s, k)].1)
    } else {
        None
    }
}

/// `s` after inserting `k => v`: an existing entry keeps its place and takes the
/// new value; a new key goes last.
pub open spec fn map_insert<K, V>(s: Seq<(K, V)>, k: K, v: V) -> Seq<(K, V)> {
    if has_key(s, k) {
        s.update(key_index(s, k), (k, v))
    } else {
        s.push((k, v))
    }
}

/// `s` after inserting each of `entries` in turn.
pub open spec fn map_insert_all<K, V>(s: Seq<(K, V)>, entries: Seq<(K, V)>) -> Seq<(K, V)>
    decreases entries.len(),
{
    if entries.len() == 0 {
        s
    } else {
        let e = entries.last();
        map_insert(map_insert_all(s, entries.drop_last()), e.0, e.1)
    }
}

/// Inserting the first `i + 1` entries is inserting the first `i` and then
/// entry `i`.
pub proof fn lemma_map_insert_all_step<K, V>(s: Seq<(K, V)>, entries: Seq<(K, V)>, i: int)
    requires
        0 <= i < entries.len(),
    ensures
        map_insert_all(s, entries.take(i + 1)) == map_insert(map_insert_all(s, entries.take(i)), entries[i].0, entries[i].1),
{
    assert(entries.take(i + 1).drop_last() =~= entries.take(i));
}

/// `s` without the entry for `k`, the later entries shifted down.
pub open spec fn map_remove<K, V>(s: Seq<(K, V)>, k: K) -> Seq<(K, V)> {
    if has_key(s, k) {
        s.remove(key_index(s, k))
    } else {
        s
    }
}

/// No key occurs twice in `s`.
pub open spec fn keys_unique<K, V>(s: Seq<(K, V)>) -> bool {
    forall|i: int, j: int| 0 <= i < s.len() && 0 <= j < s.len() && i != j ==> #[trigger] s[i].0 != #[trigger] s[j].0
}

pub proof fn lemma_key_index<K, V>(s: Seq<(K, V)>, k: K)
    requires
        has_key(s, k),
    ensures
        is_key_index(s, k, key_index(s, k)),
    decreases s.len(),
{
    if s[0].0 == k {
        assert(is_key_index(s, k, 0));
    } else {
        let t = s.drop_first();
        let w = choose|i: int| 0 <= i < s.len() && #[trigger] s[i].0 == k;
        assert(t[w - 1].0 == k);
        lemma_key_index(t, k);
        let i = key_index(t, k);
        assert forall|j: int| 0 <= j < i + 1 implies #[trigger] s[j].0 != k by {
            if j > 0 {
                assert(s[j] == t[j - 1]);
            }
        }
        assert(is_key_index(s, k, i + 1));
    }
}

/// The first entry with a key is the one a lookup finds.
pub proof fn lemma_key_index_unique<K, V>(s: Seq<(K, V)>, k: K, i: int)
    requires
        is_key_index(s, k, i),
    ensures
        has_key(s, k),
        key_index(s, k) == i,
        lookup(s, k) == Some(s[i].1),
{
    assert(s[i].0 == k);
    lemma_key_index(s, k);
    let j = key_index(s, k);
    if j < i {
        assert(s[j].0 != k);
    } else if j > i {
        assert(s[i].0 != k);
    }
}

/// What a lookup finds after an insertion: the inserted value for its key,
/// and what it found before for every other key.
pub proof fn lemma_lookup_after_insert<K, V>(s: Seq<(K, V)>, k: K, v: V, k2: K)
    ensures
        lookup(map_insert(s, k, v), k2) == if k2 == k { Some(v) } else { lookup(s, k2) },
{
    let t = map_insert(s, k, v);
    if has_key(s, k) {
        lemma_key_index(s, k);
        let i = key_index(s, k);
        assert forall|j: int| 0 <= j < s.len() implies #[trigger] t[j].0 == s[j].0 by {}
        assert(t.len() == s.len());
        if has_key(s, k2) {
            lemma_key_index(s, k2);
            let i2 = key_index(s, k2);
            assert(is_key_index(t, k2, i2));
            lemma_key_index_unique(t, k2, i2);
        } else {
            assert(!has_key(t, k2));
        }
    } else {
        assert(is_key_index(t, k, s.len() as int));
        lemma_key_index_unique(t, k, s.len() as int);
        if has_key(s, k2) {
            lemma_key_index(s, k2);
            let i2 = key_index(s, k2);
            assert(is_key_index(t, k2, i2));
            lemma_key_index_unique(t, k2, i2);
        } else if k2 != k {
            assert(!has_key(t, k2)) by {
                if has_key(t, k2) {
                    let j = choose|j: int| 0 <= j < t.len() && #[trigger] t[j].0 == k2;
                    assert(j < s.len());
                    assert(s[j].0 == k2);
                }
            }
        }
    }
}

/// Entries that give one key give it one value.
pub open spec fn entries_consistent<K, V>(entries: Seq<(K, V)>) -> bool {
    forall|i: int, j: int|
        0 <= i < entries.len() && 0 <= j < entries.len() && #[trigger] entries[i].0 == #[trigger] entries[j].0
            ==> entries[i].1 == entries[j].1
}

/// After inserting consistent entries, each of them is what a lookup of
/// its key finds.
proof fn lemma_insert_all_found<K, V>(s: Seq<(K, V)>, entries: Seq<(K, V)>)
    requires
        entries_consistent(entries),
    ensures
        forall|i: int| 0 <= i < entries.len() ==> lookup(map_insert_all(s, entries), #[trigger] entries[i].0) == Some(entries[i].1),
    decreases entries.len(),
{
    if entries.len() > 0 {
        let rest = entries.drop_last();
        let e = entries.last();
        assert(entries_consistent(rest)) by {
            assert forall|i: int, j: int|
                0 <= i < rest.len() && 0 <= j < rest.len() && #[trigger] rest[i].0 == #[trigger] rest[j].0 implies rest[i].1 == rest[j].1 by {
                assert(entries[i] == rest[i] && entries[j] == rest[j]);
            }
        }
        lemma_insert_all_found(s, rest);
        assert forall|i: int| 0 <= i < entries.len() implies lookup(map_insert_all(s, entries), #[trigger] entries[i].0) == Some(entries[i].1) by {
            lemma_lookup_after_insert(map_insert_all(s, rest), e.0, e.1, entries[i].0);
            if i < entries.len() - 1 {
                assert(entries[i] == rest[i]);
                if entries[i].0 == e.0 {
                    assert(entries[entries.len() - 1].0 == entries[i].0);
                }
            }
        }
    }
}

/// Inserting entries that a map already holds leaves it as it is.
proof fn lemma_insert_all_held<K, V>(t: Seq<(K, V)>, entries: Seq<(K, V)>)
    requires
        forall|i: int| 0 <= i < entries.len() ==> lookup(t, #[trigger] entries[i].0) == Some(entries[i].1),
    ensures
        map_insert_all(t, entries) == t,
    decreases entries.len(),
{
    if entries.len() > 0 {
        let rest = entries.drop_last();
        let e = entries.last();
        assert forall|i: int| 0 <= i < rest.len() implies lookup(t, #[trigger] rest[i].0) == Some(rest[i].1) by {
            assert(entries[i] == rest[i]);
        }
        lemma_insert_all_held(t, rest);
        assert(lookup(t, entries[entries.len() - 1].0) == Some(e.1));
        lemma_key_index(t, e.0);
        assert(t.update(key_index(t, e.0), (e.0, e.1)) =~= t);
    }
}

/// Inserting consistent entries a second time changes nothing.
pub proof fn lemma_insert_all_twice<K, V>(s: Seq<(K, V)>, entries: Seq<(K, V)>)
    requires
        entries_consistent(entries),
    ensures
        map_insert_all(map_insert_all(s, entries), entries) == map_insert_all(s, entries),
{
    lemma_insert_all_found(s, entries);
    lemma_insert_all_held(map_insert_all(s, entries), entries);
}

// ---------------------------------------------------------------------------
// IndexMap<String, String>

/// What an `IndexMap<String, String>` holds: its entries in order.
pub uninterp spec fn string_map_entries(m: IndexMap<String, String>) -> Seq<(Seq<char>, Seq<char>)>;

/// `IndexMap::new`: an empty map.
#[verifier::external_body]
pub(crate) fn string_map_new() -> (m: IndexMap<String, String>)
    ensures
        string_map_entries(m) == Seq::<(Seq<char>, Seq<char>)>::empty(),
{
    IndexMap::new()
}

/// `IndexMap::clone`: a map with clones of the same entries in the same
/// order.
#[verifier::external_body]
pub(crate) fn string_map_clone(m: &IndexMap<String, String>) -> (r: IndexMap<String, String>)
    ensures
        string_map_entries(r) == string_map_entries(*m),
{
    m.clone()
}

/// `IndexMap::len`: the number of entries.
#[verifier::external_body]
pub(crate) fn string_map_len(m: &IndexMap<String, String>) -> (n: usize)
    ensures
        n == string_map_entries(*m).len(),
{
    m.len()
}

/// `IndexMap::get_index`: the entry at position `i`.
#[verifier::external_body]
pub(crate) fn string_map_get_index(m: &IndexMap<String, String>, i: usize) -> (e: (&String, &String))
    requires
        i < string_map_entries(*m).len(),
    ensures
        (e.0@, e.1@) == string_map_entries(*m)[i as int],
{
    m.get_index(i).unwrap()
}

/// `IndexMap::get_index_of`: the position of the entry with key `k`.
#[verifier::external_body]
pub(crate) fn string_map_get_index_of(m: &IndexMap<String, String>, k: &str) -> (r: Option<usize>)
    ensures
        r is None <==> !has_key(string_map_entries(*m), k@),
        r matches Some(i) ==> is_key_index(string_map_entries(*m), k@, i as int),
{
    m.get_index_of(k)
}

/// `IndexMap::insert`: sets the value for `k`; a new key is appended, an
/// existing one keeps its position. Returns the value it replaced.
#[verifier::external_body]
pub(crate) fn string_map_insert(m: &mut IndexMap<String, String>, k: String, v: String) -> (r: Option<String>)
    ensures
        string_map_entries(*final(m)) == map_insert(string_map_entries(*old(m)), k@, v@),
        keys_unique(string_map_entries(*final(m))),
        r is Some <==> has_key(string_map_entries(*old(m)), k@),
        r matches Some(old_v) ==> Some(old_v@) == lookup(string_map_entries(*old(m)), k@),
{
    m.insert(k, v)
}

/// `IndexMap::replace_index`: gives the entry at `i` the key `k` unless another
/// entry already has it, in which case the map is unchanged and the error
/// holds that entry's position.
#[verifier::external_body]
pub(crate) fn string_map_replace_index(m: &mut IndexMap<String, String>, i: usize, k: String)
    -> (r: Result<String, (usize, String)>)
    requires
        i < string_map_entries(*old(m)).len(),
    ensures
        match r {
            Ok(old_k) => {
                &&& old_k@ == string_map_entries(*old(m))[i as int].0
                &&& string_map_entries(*final(m)) == string_map_entries(*old(m)).update(
                    i as int,
                    (k@, string_map_entries(*old(m))[i as int].1),
                )
                &&& (forall|j: int| 0 <= j < string_map_entries(*old(m)).len() && j != i
                    ==> #[trigger] string_map_entries(*old(m))[j].0 != k@)
            },
            Err((j, k2)) => {
                &&& k2@ == k@
                &&& j != i
                &&& j < string_map_entries(*old(m)).len()
                &&& string_map_entries(*old(m))[j as int].0 == k@
                &&& string_map_entries(*final(m)) == string_map_entries(*old(m))
            },
        },
{
    m.replace_index(i, k)
}

/// `IndexMap::shift_remove`: removes the entry for `k`, shifting later entries
/// down. Returns its value.
#[verifier::external_body]
pub(crate) fn string_map_shift_remove(m: &mut IndexMap<String, String>, k: &str) -> (r: Option<String>)
    ensures
        string_map_entries(*final(m)) == map_remove(string_map_entries(*old(m)), k@),
        r is Some <==> has_key(string_map_entries(*old(m)), k@),
        r matches Some(v) ==> Some(v@) == lookup(string_map_entries(*old(m)), k@),
{
    m.shift_remove(k)
}

// ---------------------------------------------------------------------------
// IndexMap<String, Glyph>

/// What an `IndexMap<String, Glyph>` holds: its entries in order.
pub uninterp spec fn glyph_map_entries(m: IndexMap<String, Glyph>) -> Seq<(Seq<char>, GlyphView)>;

/// `IndexMap::new`: an empty map.
#[verifier::external_body]
pub(crate) fn glyph_map_new() -> (m: IndexMap<String, Glyph>)
    ensures
        glyph_map_entries(m) == Seq::<(Seq<char>, GlyphView)>::empty(),
{
    IndexMap::new()
}

/// `IndexMap::clone`: a map with clones of the same entries in the same
/// order; each glyph is copied by `Glyph::clone`, which keeps its view.
#[verifier::external_body]
pub(crate) fn glyph_map_clone(m: &IndexMap<String, Glyph>) -> (r: IndexMap<String, Glyph>)
    ensures
        glyph_map_entries(r) == glyph_map_entries(*m),
{
    m.clone()
}

/// `IndexMap::len`: the number of entries.
#[verifier::external_body]
pub(crate) fn glyph_map_len(m: &IndexMap<String, Glyph>) -> (n: usize)
    ensures
        n == glyph_map_entries(*m).len(),
{
    m.len()
}

/// `IndexMap::get_index`: the entry at position `i`.
#[verifier::external_body]
pub(crate) fn glyph_map_get_index(m: &IndexMap<String, Glyph>, i: usize) -> (e: (&String, &Glyph))
    requires
        i < glyph_map_entries(*m).len(),
    ensures
        (e.0@, e.1@) == glyph_map_entries(*m)[i as int],
{
    m.get_index(i).unwrap()
}

/// `IndexMap::get_index_of`: the position of the entry with key `k`.
#[verifier::external_body]
pub(crate) fn glyph_map_get_index_of(m: &IndexMap<String, Glyph>, k: &str) -> (r: Option<usize>)
    ensures
        r is None <==> !has_key(glyph_map_entries(*m), k@),
        r matches Some(i) ==> is_key_index(glyph_map_entries(*m), k@, i as int),
{
    m.get_index_of(k)
}

/// `IndexMap::insert`: sets the glyph for `k`; a new key is appended, an
/// existing one keeps its position. Returns the glyph it replaced.
#[verifier::external_body]
pub(crate) fn glyph_map_insert(m: &mut IndexMap<String, Glyph>, k: String, v: Glyph) -> (r: Option<Glyph>)
    ensures
        glyph_map_entries(*final(m)) == map_insert(glyph_map_entries(*old(m)), k@, v@),
        keys_unique(glyph_map_entries(*final(m))),
        r is Some <==> has_key(glyph_map_entries(*old(m)), k@),
        r matches Some(old_v) ==> Some(old_v@) == lookup(glyph_map_entries(*old(m)), k@),
{
    m.insert(k, v)
}

/// `std::mem::replace(&mut map[i], v)`: swaps the glyph at position `i` for
/// `v`, keeping its key, and returns the glyph that was there.
#[verifier::external_body]
pub(crate) fn glyph_map_replace_value(m: &mut IndexMap<String, Glyph>, i: usize, v: Glyph) -> (r: Glyph)
    requires
        i < glyph_map_entries(*old(m)).len(),
    ensures
        r@ == glyph_map_entries(*old(m))[i as int].1,
        glyph_map_entries(*final(m)) == glyph_map_entries(*old(m)).update(
            i as int,
            (glyph_map_entries(*old(m))[i as int].0, v@),
        ),
{
    std::mem::replace(&mut m[i], v)
}

// ---------------------------------------------------------------------------
// IndexMap<u32, CodepointMapping>

/// What an `IndexMap<u32, CodepointMapping>` holds: its entries in order.
pub uninterp spec fn mapping_map_entries(m: IndexMap<u32, CodepointMapping>) -> Seq<(u32, CodepointMappingView)>;

/// `IndexMap::new`: an empty map.
#[verifier::external_body]
pub(crate) fn mapping_map_new() -> (m: IndexMap<u32, CodepointMapping>)
    ensures
        mapping_map_entries(m) == Seq::<(u32, CodepointMappingView)>::empty(),
{
    IndexMap::new()
}

/// `IndexMap::clone`: a map with clones of the same entries in the same
/// order; each mapping is copied by `CodepointMapping::clone`, which keeps
/// its view.
#[verifier::external_body]
pub(crate) fn mapping_map_clone(m: &IndexMap<u32, CodepointMapping>) -> (r: IndexMap<u32, CodepointMapping>)
    ensures
        mapping_map_entries(r) == mapping_map_entries(*m),
{
    m.clone()
}

/// `IndexMap::len`: the number of entries.
#[verifier::external_body]
pub(crate) fn mapping_map_len(m: &IndexMap<u32, CodepointMapping>) -> (n: usize)
    ensures
        n == mapping_map_entries(*m).len(),
{
    m.len()
}

/// `IndexMap::get_index`: the entry at position `i`.
#[verifier::external_body]
pub(crate) fn mapping_map_get_index(m: &IndexMap<u32, CodepointMapping>, i: usize) -> (e: (&u32, &CodepointMapping))
    requires
        i < mapping_map_entries(*m).len(),
    ensures
        (*e.0, e.1@) == mapping_map_entries(*m)[i as int],
{
    m.get_index(i).unwrap()
}

/// `IndexMap::get_index_of`: the position of the entry with key `k`.
#[verifier::external_body]
pub(crate) fn mapping_map_get_index_of(m: &IndexMap<u32, CodepointMapping>, k: u32) -> (r: Option<usize>)
    ensures
        r is None <==> !has_key(mapping_map_entries(*m), k),
        r matches Some(i) ==> is_key_index(mapping_map_entries(*m), k, i as int),
{
    m.get_index_of(&k)
}

/// `IndexMap::insert`: sets the mapping for `k`; a new key is appended, an
/// existing one keeps its position. Returns the mapping it replaced.
#[verifier::external_body]
pub(crate) fn mapping_map_insert(m: &mut IndexMap<u32, CodepointMapping>, k: u32, v: CodepointMapping)
    -> (r: Option<CodepointMapping>)
    ensures
        mapping_map_entries(*final(m)) == map_insert(mapping_map_entries(*old(m)), k, v@),
        keys_unique(mapping_map_entries(*final(m))),
        r is Some <==> has_key(mapping_map_entries(*old(m)), k),
        r matches Some(old_v) ==> Some(old_v@) == lookup(mapping_map_entries(*old(m)), k),
{
    m.insert(k, v)
}

/// `std::mem::replace(&mut map[i], v)`: swaps the mapping at position `i` for
/// `v`, keeping its key, and returns the mapping that was there.
#[verifier::external_body]
pub(crate) fn mapping_map_replace_value(m: &mut IndexMap<u32, CodepointMapping>, i: usize, v: CodepointMapping)
    -> (r: CodepointMapping)
    requires
        i < mapping_map_entries(*old(m)).len(),
    ensures
        r@ == mapping_map_entries(*old(m))[i as int].1,
        mapping_map_entries(*final(m)) == mapping_map_entries(*old(m)).update(
            i as int,
            (mapping_map_entries(*old(m))[i as int].0, v@),
        ),
{
    std::mem::replace(&mut m[i], v)
}

// ---------------------------------------------------------------------------
// IndexSet<u32>

/// What an `IndexSet<u32>` holds: its elements in insertion order.
pub uninterp spec fn codepoint_set_elements(s: IndexSet<u32>) -> Seq<u32>;

/// `IndexSet::new`: an empty set.
#[verifier::external_body]
pub(crate) fn codepoint_set_new() -> (s: IndexSet<u32>)
    ensures
        codepoint_set_elements(s) == Seq::<u32>::empty(),
{
    IndexSet::new()
}

/// `IndexSet::len`: the number of elements.
#[verifier::external_body]
pub(crate) fn codepoint_set_len(s: &IndexSet<u32>) -> (n: usize)
    ensures
        n == codepoint_set_elements(*s).len(),
{
    s.len()
}

/// `IndexSet::get_index`: the element at position `i`.
#[verifier::external_body]
pub(crate) fn codepoint_set_get_index(s: &IndexSet<u32>, i: usize) -> (e: u32)
    requires
        i < codepoint_set_elements(*s).len(),
    ensures
        e == codepoint_set_elements(*s)[i as int],
{
    *s.get_index(i).unwrap()
}

/// `IndexSet::insert`: appends `v` unless it is already there. Returns whether
/// it was appended.
#[verifier::external_body]
pub(crate) fn codepoint_set_insert(s: &mut IndexSet<u32>, v: u32) -> (added: bool)
    ensures
        added == !codepoint_set_elements(*old(s)).contains(v),
        codepoint_set_elements(*final(s)) == if added {
            codepoint_set_elements(*old(s)).push(v)
        } else {
            codepoint_set_elements(*old(s))
        },
{
    s.insert(v)
}

// ---------------------------------------------------------------------------
// Lookups by key

/// Takes the entry at `i` out of `v`, leaving `filler` in its place.
pub(crate) fn take_entry<T>(v: &mut Vec<T>, i: usize, filler: T) -> (r: T)
    requires
        i < old(v)@.len(),
    ensures
        r == old(v)@[i as int],
        final(v)@ == old(v)@.update(i as int, filler),
{
    let mut out = filler;
    std::mem::swap(&mut v[i], &mut out);
    out
}



/// The glyph stored under `k`, if any.
pub(crate) fn glyph_map_get<'a>(m: &'a IndexMap<String, Glyph>, k: &str) -> (r: Option<&'a Glyph>)
    ensures
        match r {
            Some(g) => lookup(glyph_map_entries(*m), k@) == Some(g@),
            None => lookup(glyph_map_entries(*m), k@) is None,
        },
{
    match glyph_map_get_index_of(m, k) {
        Some(i) => {
            proof {
                lemma_key_index_unique(glyph_map_entries(*m), k@, i as int);
            }
            let (_, g) = glyph_map_get_index(m, i);
            Some(g)
        },
        None => None,
    }
}

/// The mapping stored under `k`, if any.
pub(crate) fn mapping_map_get<'a>(m: &'a IndexMap<u32, CodepointMapping>, k: u32) -> (r: Option<&'a CodepointMapping>)
    ensures
        match r {
            Some(c) => lookup(mapping_map_entries(*m), k) == Some(c@),
            None => lookup(mapping_map_entries(*m), k) is None,
        },
{
    match mapping_map_get_index_of(m, k) {
        Some(i) => {
            proof {
                lemma_key_index_unique(mapping_map_entries(*m), k, i as int);
            }
            let (_, c) = mapping_map_get_index(m, i);
            Some(c)
        },
        None => None,
    }
}

} // verus!
