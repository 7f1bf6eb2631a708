//! Concurrent maps keyed by an integer that is its own hash.
//!
//! The maps are those of the `dashmap` crate with the hasher of `nohash-hasher`.
//! Verification rests on the contracts below. Each operation takes the map
//! exclusively, or reads it, so that nobody else changes it meanwhile.

use crate::backend::window::InputBlockData;
use crate::backend::WindowBackend;
use core::hash::BuildHasherDefault;
use dashmap::DashMap;
use nohash_hasher::NoHashHasher;
use vstd::prelude::*;

verus! {

#[verifier::external_type_specification]
#[verifier::external_body]
#[verifier::reject_recursive_types(K)]
#[verifier::reject_recursive_types(V)]
#[verifier::reject_recursive_types(S)]
pub struct ExDashMap<K, V, S>(dashmap::DashMap<K, V, S>);

#[verifier::external_type_specification]
#[verifier::external_body]
#[verifier::reject_recursive_types(T)]
pub struct ExNoHashHasher<T>(nohash_hasher::NoHashHasher<T>);

#[verifier::external_type_specification]
#[verifier::external_body]
#[verifier::reject_recursive_types(H)]
pub struct ExBuildHasherDefault<H>(core::hash::BuildHasherDefault<H>);

/// A map from machine words to machine words.
pub type WordMap = DashMap<usize, usize, BuildHasherDefault<NoHashHasher<usize>>>;

/// What a map of words holds.
pub uninterp spec fn words(map: WordMap) -> Map<usize, usize>;

/// No words.
pub open spec fn no_words() -> Map<usize, usize> {
    Map::empty()
}

/// `DashMap::default` makes a map that holds nothing.
#[verifier::external_body]
fn word_map() -> (made: WordMap)
    ensures
        words(made) == no_words(),
{
    DashMap::default()
}

/// `DashMap::insert` stores a value under a key and returns the one that it
/// replaces.
#[verifier::external_body]
fn word_insert(map: &mut WordMap, key: usize, value: usize) -> (replaced: Option<usize>)
    ensures
        words(*final(map)) == words(*old(map)).insert(key, value),
        replaced == words(*old(map)).get(key),
{
    map.insert(key, value)
}

/// `DashMap::remove` takes a key out and returns what was stored under it.
#[verifier::external_body]
fn word_remove(map: &mut WordMap, key: usize) -> (removed: Option<usize>)
    ensures
        words(*final(map)) == words(*old(map)).remove(key),
        removed == words(*old(map)).get(key),
{
    map.remove(&key).map(|entry| entry.1)
}

/// `DashMap::get` finds what is stored under a key.
#[verifier::external_body]
fn word_get(map: &WordMap, key: usize) -> (found: Option<usize>)
    ensures
        found == words(*map).get(key),
{
    map.get(&key).map(|entry| *entry)
}

/// Machine words by machine words. Only what takes the table by `&mut` changes
/// it.
pub struct WordTable {
    map: WordMap,
}

impl View for WordTable {
    type V = Map<usize, usize>;

    closed spec fn view(&self) -> Map<usize, usize> {
        words(self.map)
    }
}

impl WordTable {
    /// A table that holds nothing.
    pub fn new() -> (made: WordTable)
        ensures
            made@ == no_words(),
    {
        WordTable { map: word_map() }
    }

    /// Stores a value under a key and returns the one that it replaces.
    pub fn insert(&mut self, key: usize, value: usize) -> (replaced: Option<usize>)
        ensures
            final(self)@ == old(self)@.insert(key, value),
            replaced == old(self)@.get(key),
    {
        word_insert(&mut self.map, key, value)
    }

    /// Takes a key out and returns what was stored under it.
    pub fn remove(&mut self, key: usize) -> (removed: Option<usize>)
        ensures
            final(self)@ == old(self)@.remove(key),
            removed == old(self)@.get(key),
    {
        word_remove(&mut self.map, key)
    }

    /// What is stored under a key.
    pub fn get(&self, key: usize) -> (found: Option<usize>)
        ensures
            found == self@.get(key),
    {
        word_get(&self.map, key)
    }
}

/// A map from machine words to lists of machine words.
pub type ListMap = DashMap<usize, Vec<usize>, BuildHasherDefault<NoHashHasher<usize>>>;

/// What a map of lists holds.
pub uninterp spec fn word_lists(map: ListMap) -> Map<usize, Seq<usize>>;

/// No lists.
pub open spec fn no_lists() -> Map<usize, Seq<usize>> {
    Map::empty()
}

/// `DashMap::default` makes a map that holds nothing.
#[verifier::external_body]
pub(crate) fn list_map() -> (made: ListMap)
    ensures
        word_lists(made) == no_lists(),
{
    DashMap::default()
}

/// `DashMap::insert` stores a list under a key in place of what was there.
#[verifier::external_body]
pub(crate) fn list_insert(map: &mut ListMap, key: usize, value: Vec<usize>)
    ensures
        word_lists(*final(map)) == word_lists(*old(map)).insert(key, value@),
{
    map.insert(key, value);
}

/// `DashMap::remove` takes a key out, if it is there.
#[verifier::external_body]
pub(crate) fn list_remove(map: &mut ListMap, key: usize)
    ensures
        word_lists(*final(map)) == word_lists(*old(map)).remove(key),
{
    map.remove(&key);
}

/// `DashMap::get` finds the list that is stored under a key; it is copied.
#[verifier::external_body]
pub(crate) fn list_get(map: &ListMap, key: usize) -> (found: Option<Vec<usize>>)
    ensures
        found is Some <==> word_lists(*map).contains_key(key),
        found matches Some(list) ==> list@ == word_lists(*map)[key],
{
    map.get(&key).map(|entry| entry.value().clone())
}

/// A map from window ids to windows.
pub type BackendMap = DashMap<u32, WindowBackend, BuildHasherDefault<NoHashHasher<u32>>>;

/// The windows that a map holds.
pub uninterp spec fn backends(map: BackendMap) -> Map<u32, WindowBackend>;

/// No windows.
pub open spec fn no_backends() -> Map<u32, WindowBackend> {
    Map::empty()
}

/// `DashMap::default` makes a map that holds nothing.
#[verifier::external_body]
pub(crate) fn backend_map() -> (made: BackendMap)
    ensures
        backends(made) == no_backends(),
{
    DashMap::default()
}

/// `DashMap::insert` stores a window under its id and returns the one that it
/// replaces.
#[verifier::external_body]
pub(crate) fn backend_insert(map: &mut BackendMap, id: u32, backend: WindowBackend) -> (replaced:
    Option<WindowBackend>)
    ensures
        backends(*final(map)) == backends(*old(map)).insert(id, backend),
        replaced == backends(*old(map)).get(id),
{
    map.insert(id, backend)
}

/// `DashMap::remove` takes a window out and returns it.
#[verifier::external_body]
pub(crate) fn backend_remove(map: &mut BackendMap, id: u32) -> (removed: Option<WindowBackend>)
    ensures
        backends(*final(map)) == backends(*old(map)).remove(id),
        removed == backends(*old(map)).get(id),
{
    map.remove(&id).map(|entry| entry.1)
}

/// `DashMap::iter` passes every entry once, in an order that is not specified;
/// its key is taken.
#[verifier::external_body]
pub(crate) fn backend_ids(map: &BackendMap) -> (ids: Vec<u32>)
    ensures
        ids@.no_duplicates(),
        ids@.to_set() == backends(*map).dom(),
{
    map.iter().map(|entry| *entry.key()).collect()
}

/// `DashMap::get` finds the window that is stored under an id; what it keeps
/// while its input is blocked is copied.
#[verifier::external_body]
pub(crate) fn backend_blocking(map: &BackendMap, id: u32) -> (blocking: Option<
    Option<InputBlockData>,
>)
    ensures
        blocking == (match backends(*map).get(id) {
            Some(backend) => Some(backend.proc.blocking_state),
            None => None,
        }),
{
    map.get(&id).map(|backend| backend.proc.blocking_state)
}

/// What is stored under a key is found there, and what it replaces is given
/// back; taken out, it is given back, and nothing is found. Other keys keep
/// what they have throughout, and a new table holds nothing.
pub proof fn law_stored_words_are_found(
    fresh: WordTable,
    nothing: Option<usize>,
    table: &mut WordTable,
    key: usize,
    value: usize,
    before: Option<usize>,
    replaced: Option<usize>,
    stored: WordTable,
    found: Option<usize>,
    next: &mut WordTable,
    removed: Option<usize>,
    later: WordTable,
    gone: Option<usize>,
    other: usize,
    kept: Option<usize>,
    still: Option<usize>,
)
    requires
        call_ensures(WordTable::new, (), fresh),
        call_ensures(WordTable::get, (&fresh, key), nothing),
        call_ensures(WordTable::get, (&*table, key), before),
        call_ensures(WordTable::insert, (table, key, value), replaced),
        stored == *final(table),
        call_ensures(WordTable::get, (&stored, key), found),
        *next == stored,
        call_ensures(WordTable::remove, (next, key), removed),
        later == *final(next),
        call_ensures(WordTable::get, (&later, key), gone),
        other != key,
        call_ensures(WordTable::get, (&*table, other), kept),
        call_ensures(WordTable::get, (&later, other), still),
    ensures
        nothing is None,
        replaced == before,
        found == Some(value),
        removed == Some(value),
        gone is None,
        still == kept,
{
}

} // verus!
