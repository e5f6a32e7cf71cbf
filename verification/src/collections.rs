//! The members of hash maps and hash sets as vectors, in no particular order.

use std::collections::{HashMap, HashSet};
use std::hash::Hash;
use vstd::prelude::*;
use vstd::std_specs::hash::obeys_key_model;

verus! {

/// The keys of a map, each once.
pub fn keys_of<K: Copy + Eq + Hash, V>(map: &HashMap<K, V>) -> (keys: Vec<K>)
    requires
        obeys_key_model::<K>(),
    ensures
        keys@.no_duplicates(),
        keys@.to_set() == map@.dom(),
{
    let mut keys: Vec<K> = Vec::new();
    for key in it: map.keys()
        invariant
            keys@ =~= it.seq().unref().take(it.index() as int),
            it.index() == it.seq().len() ==> keys@ =~= it.seq().unref(),
            it.seq().no_duplicates(),
            it.seq().unref().to_set() == map@.dom(),
    {
        keys.push(*key);
    }
    keys
}

/// The members of a set, each once.
pub fn members_of<K: Copy + Eq + Hash>(set: &HashSet<K>) -> (members: Vec<K>)
    requires
        obeys_key_model::<K>(),
    ensures
        members@.no_duplicates(),
        members@.to_set() == set@,
{
    let mut members: Vec<K> = Vec::new();
    for member in it: set.iter()
        invariant
            members@ =~= it.seq().unref().take(it.index() as int),
            it.index() == it.seq().len() ==> members@ =~= it.seq().unref(),
            it.seq().no_duplicates(),
            it.seq().unref().to_set() == set@,
    {
        members.push(*member);
    }
    members
}

} // verus!
