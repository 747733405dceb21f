//! Walking a table that is keyed by number.
use std::collections::HashMap;
use vstd::prelude::*;

verus! {

broadcast use vstd::std_specs::hash::group_hash_axioms;

/// The keys of a table, each once, in no particular order.
pub fn keys_of<V>(table: &HashMap<u32, V>) -> (ids: Vec<u32>)
    ensures
        ids@.no_duplicates(),
        ids@.to_set() == table@.dom(),
        ids@.len() == table@.len(),
{
    let mut ids: Vec<u32> = Vec::new();
    for id in keys: table.keys()
        invariant
            keys.seq().unref().to_set() == table@.dom(),
            keys.seq().no_duplicates(),
            keys.seq().len() == table@.len(),
            ids@ == keys.seq().unref().take(keys.index() as int),
            keys.index() == keys.seq().len() ==> ids@ == keys.seq().unref(),
        ensures
            ids@.no_duplicates(),
            ids@.to_set() == table@.dom(),
            ids@.len() == table@.len(),
    {
        ids.push(*id);
        proof {
            let i = keys.index() as int;
            assert(keys.seq().unref().take(i + 1) =~= keys.seq().unref().take(i).push(*id));
        }
    }
    ids
}

} // verus!
