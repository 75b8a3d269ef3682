//! The modules that a wrapper module imports by fixed names, kept in the order
//! in which they were named.

use vstd::prelude::*;
use indexmap::IndexMap;
use crate::handle::Module;

verus! {

/// `indexmap::IndexMap`, a hash map that walks its entries in the order in
/// which their keys were first inserted. Nothing of its inside is known here.
#[verifier::external_type_specification]
#[verifier::external_body]
#[verifier::reject_recursive_types(K)]
#[verifier::reject_recursive_types(V)]
#[verifier::reject_recursive_types(S)]
pub struct ExIndexMap<K, V, S>(IndexMap<K, V, S>);

/// The key-value pairs of an index map, in the order in which the map walks
/// them: the order in which their keys were first inserted. What the
/// functions below say of it is taken from the documentation of the map and
/// is not proved here.
pub uninterp spec fn index_map_entries(map: IndexMap<String, u64>) -> Seq<(Seq<char>, u64)>;

/// The first position at which `key` is a key of `entries`.
pub open spec fn key_index(entries: Seq<(Seq<char>, u64)>, key: Seq<char>) -> Option<int>
    decreases entries.len(),
{
    if entries.len() == 0 {
        None
    } else {
        match key_index(entries.drop_last(), key) {
            Some(i) => Some(i),
            None => if entries.last().0 == key {
                Some(entries.len() - 1)
            } else {
                None
            },
        }
    }
}

/// `entries` after `key` was given `value`: in place where `key` is present,
/// else as a new last pair.
pub open spec fn with_entry(entries: Seq<(Seq<char>, u64)>, key: Seq<char>, value: u64) -> Seq<
    (Seq<char>, u64),
> {
    match key_index(entries, key) {
        Some(i) => entries.update(i, (key, value)),
        None => entries.push((key, value)),
    }
}

/// Calls `IndexMap::new`. Assumed of it: the new map has no entries.
#[verifier::external_body]
fn index_map_new() -> (map: IndexMap<String, u64>)
    ensures
        index_map_entries(map) == Seq::<(Seq<char>, u64)>::empty(),
{
    IndexMap::new()
}

/// Calls `IndexMap::insert`. Assumed of it: where an equal key is present,
/// its value is replaced, the pair keeps its place in the order, and the
/// value that was replaced is returned; else the pair becomes the last one
/// and nothing is returned. No other pair is touched.
#[verifier::external_body]
fn index_map_insert(map: &mut IndexMap<String, u64>, key: String, value: u64) -> (previous:
    Option<u64>)
    ensures
        index_map_entries(*final(map)) == with_entry(index_map_entries(*old(map)), key@, value),
        previous == match key_index(index_map_entries(*old(map)), key@) {
            Some(i) => Some(index_map_entries(*old(map))[i].1),
            None => None,
        },
{
    map.insert(key, value)
}

/// Calls `IndexMap::len`. Assumed of it: it returns the number of pairs.
#[verifier::external_body]
fn index_map_len(map: &IndexMap<String, u64>) -> (len: usize)
    ensures
        len == index_map_entries(*map).len(),
{
    map.len()
}

/// Calls `IndexMap::get_index` and copies what it finds. Assumed of it: it
/// returns the pair at the given position of the walk, and nothing for a
/// position that is not below the number of pairs.
#[verifier::external_body]
fn index_map_get_index(map: &IndexMap<String, u64>, index: usize) -> (pair: Option<(String, u64)>)
    ensures
        pair is Some == (index < index_map_entries(*map).len()),
        pair matches Some((key, value)) ==> (key@, value) == index_map_entries(*map)[index as int],
{
    map.get_index(index).map(|(key, value)| (key.clone(), *value))
}

/// The modules that a wrapper module imports by name.
pub struct InnerAssets {
    map: IndexMap<String, u64>,
}

/// The bindings that the pairs of an index map stand for.
pub open spec fn assets_of(entries: Seq<(Seq<char>, u64)>) -> Seq<(Seq<char>, Module)> {
    Seq::new(entries.len(), |i: int| (entries[i].0, Module { id: entries[i].1 }))
}

impl View for InnerAssets {
    type V = Seq<(Seq<char>, Module)>;

    closed spec fn view(&self) -> Seq<(Seq<char>, Module)> {
        assets_of(index_map_entries(self.map))
    }
}

/// The first position at which `name` is bound in `assets`.
pub open spec fn name_index(assets: Seq<(Seq<char>, Module)>, name: Seq<char>) -> Option<int>
    decreases assets.len(),
{
    if assets.len() == 0 {
        None
    } else {
        match name_index(assets.drop_last(), name) {
            Some(i) => Some(i),
            None => if assets.last().0 == name {
                Some(assets.len() - 1)
            } else {
                None
            },
        }
    }
}

/// `assets` after `name` was bound to `module`: in place where `name` was
/// bound before, else as a new last binding.
pub open spec fn with_asset(assets: Seq<(Seq<char>, Module)>, name: Seq<char>, module: Module)
    -> Seq<(Seq<char>, Module)> {
    match name_index(assets, name) {
        Some(i) => assets.update(i, (name, module)),
        None => assets.push((name, module)),
    }
}

/// Where a key is found it stands, and a name is bound where its key is
/// found.
proof fn lemma_key_index(entries: Seq<(Seq<char>, u64)>, key: Seq<char>)
    ensures
        key_index(entries, key) matches Some(i) ==> 0 <= i < entries.len() && entries[i].0 == key,
        name_index(assets_of(entries), key) == key_index(entries, key),
    decreases entries.len(),
{
    if entries.len() > 0 {
        lemma_key_index(entries.drop_last(), key);
        assert(assets_of(entries).drop_last() =~= assets_of(entries.drop_last()));
    }
}

impl InnerAssets {
    /// No bindings.
    pub fn new() -> (res: InnerAssets)
        ensures
            res@ == Seq::<(Seq<char>, Module)>::empty(),
    {
        let res = InnerAssets { map: index_map_new() };
        assert(res@ =~= Seq::<(Seq<char>, Module)>::empty());
        res
    }

    /// Binds `name` to `module`. A name that was bound keeps its place and
    /// gets the new module; a new name comes last.
    pub fn insert(&mut self, name: String, module: Module)
        ensures
            final(self)@ == with_asset(old(self)@, name@, module),
    {
        let ghost before = index_map_entries(self.map);
        let _ = index_map_insert(&mut self.map, name, module.id);
        proof {
            lemma_key_index(before, name@);
            assert(self@ =~= with_asset(old(self)@, name@, module));
        }
    }

    /// The number of bindings.
    pub fn len(&self) -> (res: usize)
        ensures
            res == self@.len(),
    {
        index_map_len(&self.map)
    }

    /// The bindings in their order.
    pub fn entries(&self) -> (res: Vec<(String, Module)>)
        ensures
            res@.len() == self@.len(),
            forall|i: int|
                0 <= i < res@.len() ==> (#[trigger] res@[i]).0@ == self@[i].0 && res@[i].1
                    == self@[i].1,
    {
        let len = index_map_len(&self.map);
        let mut res: Vec<(String, Module)> = Vec::new();
        let mut i: usize = 0;
        while i < len
            invariant
                i <= len,
                len == self@.len(),
                res@.len() == i,
                forall|j: int|
                    0 <= j < i ==> (#[trigger] res@[j]).0@ == self@[j].0 && res@[j].1 == self@[j].1,
            decreases len - i,
        {
            match index_map_get_index(&self.map, i) {
                Some((name, id)) => {
                    res.push((name, Module { id }));
                },
                None => {},
            }
            i = i + 1;
        }
        res
    }
}

} // verus!
