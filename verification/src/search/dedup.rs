//! Collapsing records that share an identifier.
//!
//! The records are merged in order into a map keyed by identifier that
//! keeps its keys in the order in which they came. A record whose
//! identifier is new goes to the end; one whose identifier is present
//! replaces the record held, unless that one has its metadata loaded.

use indexmap::IndexMap;
use vstd::prelude::*;

use crate::search::cargo_crate::{crates_view, Crate, CrateView};

verus! {

/// The position of the first record with identifier `id`, or -1 where
/// there is none.
pub open spec fn position_of(acc: Seq<CrateView>, id: Seq<char>) -> int
    decreases acc.len(),
{
    if acc.len() == 0 {
        -1
    } else {
        let before = position_of(acc.drop_last(), id);
        if before >= 0 {
            before
        } else if acc.last().id == id {
            acc.len() - 1
        } else {
            -1
        }
    }
}

/// The records `acc`, whose identifiers are distinct, after `c` has been
/// merged into them.
pub open spec fn merge_record(acc: Seq<CrateView>, c: CrateView) -> Seq<CrateView> {
    let at = position_of(acc, c.id);
    if at < 0 {
        acc.push(c)
    } else if acc[at].is_metadata_loaded() {
        acc
    } else {
        acc.update(at, c)
    }
}

/// The records `s` with duplicates of an identifier collapsed into one.
pub open spec fn dedup(s: Seq<CrateView>) -> Seq<CrateView>
    decreases s.len(),
{
    if s.len() == 0 {
        Seq::empty()
    } else {
        merge_record(dedup(s.drop_last()), s.last())
    }
}

/// Whether no two records of `s` share an identifier.
pub open spec fn distinct_ids(s: Seq<CrateView>) -> bool {
    forall|i: int, j: int| 0 <= i < j < s.len() ==> (#[trigger] s[i]).id != (#[trigger] s[j]).id
}

/// What `position_of` finds: the first record with the identifier.
pub proof fn lemma_position_of(acc: Seq<CrateView>, id: Seq<char>)
    ensures
        -1 <= position_of(acc, id) < acc.len(),
        position_of(acc, id) >= 0 ==> acc[position_of(acc, id)].id == id,
        forall|i: int| 0 <= i < acc.len() && i < position_of(acc, id) ==> (#[trigger] acc[i]).id != id,
        position_of(acc, id) < 0 ==> forall|i: int| 0 <= i < acc.len() ==> (#[trigger] acc[i]).id != id,
    decreases acc.len(),
{
    if acc.len() > 0 {
        lemma_position_of(acc.drop_last(), id);
        assert(forall|i: int| 0 <= i < acc.len() - 1 ==> acc[i] == acc.drop_last()[i]);
    }
}

/// Merging keeps identifiers distinct, keeps every identifier that was
/// there in its place, and holds the identifier of the merged record.
pub proof fn lemma_merge_record(acc: Seq<CrateView>, c: CrateView)
    requires
        distinct_ids(acc),
    ensures
        distinct_ids(merge_record(acc, c)),
        merge_record(acc, c).len() >= acc.len(),
        forall|i: int| 0 <= i < acc.len() ==> (#[trigger] merge_record(acc, c)[i]).id == acc[i].id,
        position_of(merge_record(acc, c), c.id) >= 0,
{
    lemma_position_of(acc, c.id);
    let m = merge_record(acc, c);
    lemma_position_of(m, c.id);
    let at = position_of(acc, c.id);
    if at < 0 {
        assert(m[acc.len() as int].id == c.id);
    } else {
        assert(m[at].id == c.id);
    }
}

/// The result of `dedup` has no two records with one identifier.
pub proof fn lemma_dedup_distinct(s: Seq<CrateView>)
    ensures
        distinct_ids(dedup(s)),
        dedup(s).len() <= s.len(),
    decreases s.len(),
{
    if s.len() > 0 {
        lemma_dedup_distinct(s.drop_last());
        lemma_merge_record(dedup(s.drop_last()), s.last());
        lemma_position_of(dedup(s.drop_last()), s.last().id);
    }
}

/// The entries of an insertion-ordered map from identifiers to records, in
/// the order in which the map holds them.
pub uninterp spec fn map_entries(m: IndexMap<String, Crate>) -> Seq<(Seq<char>, CrateView)>;

/// The position of the first entry with key `key`, or -1 where there is
/// none.
pub open spec fn key_position(entries: Seq<(Seq<char>, CrateView)>, key: Seq<char>) -> int
    decreases entries.len(),
{
    if entries.len() == 0 {
        -1
    } else {
        let before = key_position(entries.drop_last(), key);
        if before >= 0 {
            before
        } else if entries.last().0 == key {
            entries.len() - 1
        } else {
            -1
        }
    }
}

/// The records that the entries hold, in order.
pub open spec fn entry_values(entries: Seq<(Seq<char>, CrateView)>) -> Seq<CrateView> {
    entries.map_values(|e: (Seq<char>, CrateView)| e.1)
}

/// The insertion-ordered map of `indexmap`, of which nothing but its
/// entries is spoken of here.
#[verifier::external_type_specification]
#[verifier::external_body]
#[verifier::reject_recursive_types(K)]
#[verifier::reject_recursive_types(V)]
#[verifier::reject_recursive_types(S)]
pub struct ExIndexMap<K, V, S>(IndexMap<K, V, S>);

/// `IndexMap::new` of `indexmap`. Trusted: the new map holds no entry.
#[verifier::external_body]
fn map_new() -> (m: IndexMap<String, Crate>)
    ensures
        map_entries(m).len() == 0,
{
    IndexMap::new()
}

/// `IndexMap::get` of `indexmap`. Trusted: the result is the record held
/// under `key`, and `None` where no entry has that key.
#[verifier::external_body]
fn map_get<'a>(m: &'a IndexMap<String, Crate>, key: &String) -> (r: Option<&'a Crate>)
    ensures
        match r {
            Some(held) => key_position(map_entries(*m), key@) >= 0 && held@ == map_entries(
                *m,
            )[key_position(map_entries(*m), key@)].1,
            None => key_position(map_entries(*m), key@) < 0,
        },
{
    m.get(key)
}

/// `IndexMap::insert` of `indexmap`. Trusted: where an entry has the key,
/// it keeps its place and its record is replaced; otherwise the new entry
/// goes to the end. No other entry changes.
#[verifier::external_body]
fn map_insert(m: &mut IndexMap<String, Crate>, key: String, value: Crate)
    ensures
        map_entries(*final(m)) == if key_position(map_entries(*old(m)), key@) < 0 {
            map_entries(*old(m)).push((key@, value@))
        } else {
            map_entries(*old(m)).update(key_position(map_entries(*old(m)), key@), (key@, value@))
        },
{
    m.insert(key, value);
}

/// `IndexMap::into_values` of `indexmap`. Trusted: the records come out in
/// the order in which the map holds its entries.
#[verifier::external_body]
fn map_into_values(m: IndexMap<String, Crate>) -> (r: Vec<Crate>)
    ensures
        crates_view(r@) == entry_values(map_entries(m)),
{
    m.into_values().collect()
}

/// Whether every entry is keyed by the identifier of its record.
spec fn keyed_by_id(entries: Seq<(Seq<char>, CrateView)>) -> bool {
    forall|i: int| 0 <= i < entries.len() ==> (#[trigger] entries[i]).0 == entries[i].1.id
}

/// Where every entry is keyed by its record's identifier, a key is found
/// where the identifier is found among the records.
proof fn lemma_key_position(entries: Seq<(Seq<char>, CrateView)>, key: Seq<char>)
    requires
        keyed_by_id(entries),
    ensures
        key_position(entries, key) == position_of(entry_values(entries), key),
    decreases entries.len(),
{
    if entries.len() > 0 {
        assert(keyed_by_id(entries.drop_last()));
        lemma_key_position(entries.drop_last(), key);
        assert(entry_values(entries).drop_last() =~= entry_values(entries.drop_last()));
    }
}

/// Collapses the records that share an identifier: the first record with
/// an identifier fixes its place, a later one replaces the record held
/// unless that one has its metadata loaded.
pub fn deduplicate(crates: Vec<Crate>) -> (r: Vec<Crate>)
    ensures
        crates_view(r@) == dedup(crates_view(crates@)),
{
    let ghost all = crates_view(crates@);
    let mut map = map_new();
    proof {
        assert(all.take(0) =~= Seq::<CrateView>::empty());
        assert(entry_values(map_entries(map)) =~= Seq::<CrateView>::empty());
    }
    for cr in it: crates
        invariant
            it.seq() == crates@,
            all == crates_view(crates@),
            keyed_by_id(map_entries(map)),
            entry_values(map_entries(map)) == dedup(all.take(it.index() as int)),
    {
        let ghost i = it.index() as int;
        let ghost entries = map_entries(map);
        let ghost acc = entry_values(entries);
        let ghost at = position_of(acc, cr@.id);
        proof {
            assert(all.take(i + 1).drop_last() =~= all.take(i));
            assert(all.take(i + 1).last() == cr@);
            lemma_position_of(acc, cr@.id);
            lemma_key_position(entries, cr@.id);
        }
        let loaded = match map_get(&map, &cr.id) {
            Some(held) => held.is_metadata_loaded(),
            None => false,
        };
        if !loaded {
            let key = cr.id.clone();
            map_insert(&mut map, key, cr);
            proof {
                let after = map_entries(map);
                if at < 0 {
                    assert(entry_values(after) =~= acc.push(cr@));
                } else {
                    assert(entry_values(after) =~= acc.update(at, cr@));
                }
            }
        }
    }
    proof {
        assert(all.take(all.len() as int) =~= all);
    }
    map_into_values(map)
}

} // verus!
