//! Small operations on integer-keyed hash tables.

use std::collections::HashMap;
use vstd::prelude::*;
use vstd::std_specs::iter::IteratorSpec;

verus! {

broadcast use vstd::std_specs::hash::group_hash_axioms;

/// The keys of a table, each once, in no particular order.
pub fn keys_of<V>(table: &HashMap<u32, V>) -> (keys: Vec<u32>)
    ensures
        keys@.no_duplicates(),
        keys@.to_set() == table@.dom(),
{
    let mut keys: Vec<u32> = Vec::new();
    let ghost all = vstd::std_specs::hash::spec_keys_iter(table).remaining().unref();
    for key in iter: table.keys()
        invariant
            all == iter.seq().unref(),
            keys@ == all.take(iter.index() as int),
    {
        keys.push(*key);
    }
    assert(keys@ =~= all);
    keys
}

/// Whether a list holds a value.
pub fn listed(list: &Vec<u32>, value: u32) -> (found: bool)
    ensures
        found == list@.contains(value),
{
    let mut i: usize = 0;
    while i < list.len()
        invariant
            i <= list@.len(),
            forall|j: int| 0 <= j < i ==> list@[j] != value,
        decreases list@.len() - i,
    {
        if list[i] == value {
            assert(list@[i as int] == value);
            return true;
        }
        i += 1;
    }
    false
}

/// Filtering a longer sequence filters its last value on its own.
pub proof fn lemma_filter_push<A>(s: Seq<A>, x: A, keep: spec_fn(A) -> bool)
    ensures
        s.push(x).filter(keep) == (if keep(x) {
            s.filter(keep).push(x)
        } else {
            s.filter(keep)
        }),
{
    reveal(Seq::filter);
    assert(s.push(x).drop_last() =~= s);
}

/// Pushing a value adds it, and nothing else, to what a sequence contains.
pub proof fn lemma_push_contains<A>(s: Seq<A>, pushed: A, x: A)
    ensures
        s.push(pushed).contains(x) <==> s.contains(x) || x == pushed,
{
    if s.contains(x) {
        let j = s.index_of(x);
        assert(s.push(pushed)[j] == x);
    }
    if x == pushed {
        assert(s.push(pushed)[s.len() as int] == x);
    }
    if s.push(pushed).contains(x) && x != pushed {
        let j = s.push(pushed).index_of(x);
        assert(s[j] == x);
    }
}

/// A table's keys are listed each once, and a key is found in the list exactly if
/// it is in the table.
pub proof fn law_listed_keys_are_those_of_the_table<V>(
    table: HashMap<u32, V>,
    keys: Vec<u32>,
    key: u32,
    found: bool,
    i: int,
    j: int,
)
    requires
        call_ensures(keys_of::<V>, (&table,), keys),
        call_ensures(listed, (&keys, key), found),
        0 <= i < j < keys@.len(),
    ensures
        found <==> table@.contains_key(key),
        keys@[i] != keys@[j],
{
    assert(keys@.to_set().contains(key) == table@.dom().contains(key));
}

/// A value is in a list exactly if it stands somewhere in it.
pub proof fn law_listed_values_stand_in_the_list(list: Vec<u32>, value: u32, found: bool)
    requires
        call_ensures(listed, (&list, value), found),
    ensures
        found <==> exists|i: int| 0 <= i < list@.len() && #[trigger] list@[i] == value,
{
}

} // verus!
