//! The ordered map that holds the open tabs.
//!
//! The tabs live in an `indexmap::IndexMap`, which remembers the order in
//! which keys were first inserted. Verus does not look inside the map: this
//! module names what it holds, says what each operation the library uses does
//! to that, and defines the vocabulary in which the rest of the library
//! speaks about it.

use crate::app_state::{Tab, TabView};
use indexmap::IndexMap;
use vstd::prelude::*;

verus! {

#[verifier::external_type_specification]
#[verifier::external_body]
#[verifier::reject_recursive_types(K)]
#[verifier::reject_recursive_types(V)]
#[verifier::reject_recursive_types(S)]
pub struct ExIndexMap<K, V, S>(IndexMap<K, V, S>);

/// The entries of a tab map in their order: each key with the tab stored
/// under it.
pub type TabEntries = Seq<(Seq<char>, TabView)>;

/// What a tab map holds, first entry first.
pub uninterp spec fn tab_entries(tabs: IndexMap<String, Tab>) -> Seq<(Seq<char>, TabView)>;

/// Whether some entry has the key `key`.
pub open spec fn has_key(entries: TabEntries, key: Seq<char>) -> bool {
    exists|i: int| 0 <= i < entries.len() && (#[trigger] entries[i]).0 == key
}

/// Whether `i` is the first position whose entry has the key `key`.
pub open spec fn is_key_position(entries: TabEntries, key: Seq<char>, i: int) -> bool {
    &&& 0 <= i < entries.len()
    &&& entries[i].0 == key
    &&& forall|j: int| 0 <= j < i ==> (#[trigger] entries[j]).0 != key
}

/// The first position whose entry has the key `key`, where there is one.
pub open spec fn key_position(entries: TabEntries, key: Seq<char>) -> int {
    choose|i: int| is_key_position(entries, key, i)
}

/// The tab stored under `key`, if there is one.
pub open spec fn tab_under(entries: TabEntries, key: Seq<char>) -> Option<TabView> {
    if has_key(entries, key) {
        Some(entries[key_position(entries, key)].1)
    } else {
        None
    }
}

/// The entries after `tab` was stored under `key`: a key that is already
/// there keeps its place and gets the new tab, a new key goes last.
pub open spec fn with_entry(entries: TabEntries, key: Seq<char>, tab: TabView) -> TabEntries {
    if has_key(entries, key) {
        entries.update(key_position(entries, key), (key, tab))
    } else {
        entries.push((key, tab))
    }
}

/// The keys of the entries, in order.
pub open spec fn keys_of(entries: TabEntries) -> Seq<Seq<char>> {
    Seq::new(entries.len(), |i: int| entries[i].0)
}

/// The tabs of the entries, in order.
pub open spec fn tabs_of(entries: TabEntries) -> Seq<TabView> {
    Seq::new(entries.len(), |i: int| entries[i].1)
}

/// Whether no key occurs twice.
pub open spec fn keys_distinct(entries: TabEntries) -> bool {
    forall|i: int, j: int|
        0 <= i < j < entries.len() ==> (#[trigger] entries[i]).0 != (#[trigger] entries[j]).0
}

/// A key that occurs has a first position.
pub proof fn lemma_key_position(entries: TabEntries, key: Seq<char>)
    requires
        has_key(entries, key),
    ensures
        is_key_position(entries, key, key_position(entries, key)),
{
    let some = choose|i: int| 0 <= i < entries.len() && (#[trigger] entries[i]).0 == key;
    lemma_first_before(entries, key, some);
}

/// If position `bound` has the key, some position up to `bound` is the first
/// that has it.
proof fn lemma_first_before(entries: TabEntries, key: Seq<char>, bound: int)
    requires
        0 <= bound < entries.len(),
        entries[bound].0 == key,
    ensures
        exists|i: int| is_key_position(entries, key, i),
    decreases bound,
{
    if exists|j: int| 0 <= j < bound && (#[trigger] entries[j]).0 == key {
        let j = choose|j: int| 0 <= j < bound && (#[trigger] entries[j]).0 == key;
        lemma_first_before(entries, key, j);
    } else {
        assert(is_key_position(entries, key, bound));
    }
}

/// `IndexMap::new`: a map without entries.
#[verifier::external_body]
pub(crate) fn new_tab_map() -> (tabs: IndexMap<String, Tab>)
    ensures
        tab_entries(tabs) == Seq::<(Seq<char>, TabView)>::empty(),
{
    IndexMap::new()
}

/// `IndexMap::clone`: a map with the same entries in the same order.
#[verifier::external_body]
pub(crate) fn copy_tab_map(tabs: &IndexMap<String, Tab>) -> (copy: IndexMap<String, Tab>)
    ensures
        tab_entries(copy) == tab_entries(*tabs),
{
    tabs.clone()
}

/// `IndexMap::insert`: stores `tab` under `key`. If the key is already in the
/// map it stays where it is and the tab that was stored under it is handed
/// back; otherwise the pair becomes the last entry and nothing is handed back.
#[verifier::external_body]
pub(crate) fn insert_tab(tabs: &mut IndexMap<String, Tab>, key: String, tab: Tab) -> (previous:
    Option<Tab>)
    ensures
        tab_entries(*final(tabs)) == with_entry(tab_entries(*old(tabs)), key@, tab@),
        match previous {
            Some(previous) => tab_under(tab_entries(*old(tabs)), key@) == Some(previous@),
            None => tab_under(tab_entries(*old(tabs)), key@) is None,
        },
{
    tabs.insert(key, tab)
}

/// `IndexMap::get`: the tab stored under `key`, if the map has that key.
#[verifier::external_body]
pub(crate) fn tab_of<'a>(tabs: &'a IndexMap<String, Tab>, key: &str) -> (found: Option<&'a Tab>)
    ensures
        match found {
            Some(tab) => tab_under(tab_entries(*tabs), key@) == Some(tab@),
            None => tab_under(tab_entries(*tabs), key@) is None,
        },
{
    tabs.get(key)
}

/// `IndexMap::len`: the number of entries.
#[verifier::external_body]
pub(crate) fn tab_count(tabs: &IndexMap<String, Tab>) -> (count: usize)
    ensures
        count == tab_entries(*tabs).len(),
{
    tabs.len()
}

/// `IndexMap::get_index`: the tab of the entry at position `index`, if the
/// map has that many entries.
#[verifier::external_body]
pub(crate) fn tab_at<'a>(tabs: &'a IndexMap<String, Tab>, index: usize) -> (found: Option<&'a Tab>)
    ensures
        match found {
            Some(tab) => index < tab_entries(*tabs).len() && tab@ == tab_entries(
                *tabs,
            )[index as int].1,
            None => index >= tab_entries(*tabs).len(),
        },
{
    tabs.get_index(index).map(|entry| entry.1)
}

} // verus!
