//! Maps from strings to strings, as the host hands them over: the plugin's
//! options and the payload that travels with a command.
//!
//! Contracts speak of such a map through its deep view, a
//! `Map<Seq<char>, Seq<char>>` from the text of each key to the text of its
//! value.

use std::collections::BTreeMap;
use vstd::prelude::*;

verus! {

/// `BTreeMap::get` with a `&str` key. Not proved: that it returns the value
/// stored under the key whose text is `key`, and `None` exactly when the map
/// holds no such key.
#[verifier::external_body]
pub(crate) fn lookup<'a>(map: &'a BTreeMap<String, String>, key: &str) -> (value: Option<
    &'a String,
>)
    ensures
        match value {
            Some(v) => map.deep_view().contains_key(key@) && map.deep_view()[key@] == v@,
            None => !map.deep_view().contains_key(key@),
        },
{
    map.get(key)
}

/// `BTreeMap::insert`. Not proved: that afterwards the map holds `value`
/// under the text of `key`, in place of what it may have held there, and
/// every other entry as before.
#[verifier::external_body]
pub(crate) fn store(map: &mut BTreeMap<String, String>, key: String, value: String)
    ensures
        final(map).deep_view() == old(map).deep_view().insert(key@, value@),
{
    map.insert(key, value);
}

/// A map without entries.
pub(crate) fn empty_map() -> (map: BTreeMap<String, String>)
    ensures
        map.deep_view() == Map::<Seq<char>, Seq<char>>::empty(),
{
    let map = BTreeMap::new();
    proof {
        vstd::std_specs::btree::lemma_btree_map_deepview_dom(map);
        assert(map.deep_view().dom() =~= Set::<Seq<char>>::empty());
        assert(map.deep_view() =~= Map::<Seq<char>, Seq<char>>::empty());
    }
    map
}

} // verus!
