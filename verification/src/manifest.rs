//! The manifests that tell a runtime loader which chunks to fetch for a route.

use vstd::prelude::*;
use vstd::hash_map::StringHashMap;
use vstd::string::*;
use crate::chunk::{ReferenceChunks, ReferenceChunksView};

verus! {

/// The files that every route of the app loads first, in the order in which
/// the shared chunks were found, each once.
pub struct BuildManifest {
    pub root_main_files: Vec<String>,
}

impl View for BuildManifest {
    type V = Seq<Seq<char>>;

    open spec fn view(&self) -> Seq<Seq<char>> {
        self.root_main_files.deep_view()
    }
}

/// `files` with `file` added at the end, unless it is among them.
pub open spec fn with_root_file(files: Seq<Seq<char>>, file: Seq<char>) -> Seq<Seq<char>> {
    if files.contains(file) {
        files
    } else {
        files.push(file)
    }
}

impl BuildManifest {
    /// The manifest without files.
    pub fn new() -> (res: BuildManifest)
        ensures
            res@ == Seq::<Seq<char>>::empty(),
    {
        let res = BuildManifest { root_main_files: Vec::new() };
        assert(res@ =~= Seq::<Seq<char>>::empty());
        res
    }

    /// Whether `file` is among the files.
    pub fn contains(&self, file: &String) -> (res: bool)
        ensures
            res == self@.contains(file@),
    {
        let mut i: usize = 0;
        while i < self.root_main_files.len()
            invariant
                i <= self.root_main_files.len(),
                forall|j: int| 0 <= j < i ==> self@[j] != file@,
            decreases self.root_main_files.len() - i,
        {
            if self.root_main_files[i] == *file {
                assert(self@[i as int] == file@);
                return true;
            }
            i = i + 1;
        }
        false
    }

    /// Adds `file` as the last file, unless it is among the files.
    pub fn add_root_main_file(&mut self, file: String)
        ensures
            final(self)@ == with_root_file(old(self)@, file@),
    {
        if !self.contains(&file) {
            self.root_main_files.push(file);
            assert(self@ =~= old(self)@.push(file@));
        }
    }
}

/// For each route, by its name, the client chunks that it loads: first those
/// of the route itself, then those that all routes share.
pub struct AppBuildManifest {
    pub pages: StringHashMap<Vec<String>>,
}

impl View for AppBuildManifest {
    type V = Map<Seq<char>, Seq<Seq<char>>>;

    open spec fn view(&self) -> Map<Seq<char>, Seq<Seq<char>>> {
        Map::new(
            |name: Seq<char>| self.pages@.contains_key(name),
            |name: Seq<char>| self.pages@[name].deep_view(),
        )
    }
}

impl AppBuildManifest {
    /// The manifest without routes.
    pub fn new() -> (res: AppBuildManifest)
        ensures
            res@ == Map::<Seq<char>, Seq<Seq<char>>>::empty(),
    {
        let res = AppBuildManifest { pages: StringHashMap::new() };
        assert(res@ =~= Map::<Seq<char>, Seq<Seq<char>>>::empty());
        res
    }

    /// Lists `paths` for the route `name`, in place of what was listed for
    /// it.
    pub fn insert(&mut self, name: String, paths: Vec<String>)
        ensures
            final(self)@ == old(self)@.insert(name@, paths.deep_view()),
    {
        self.pages.insert(name, paths);
        assert(self@ =~= old(self)@.insert(name@, paths.deep_view()));
    }
}

/// For each route, by its name, the path of the chunk that holds its
/// server-component module.
pub struct AppPathsManifest {
    pub pages: StringHashMap<String>,
}

impl View for AppPathsManifest {
    type V = Map<Seq<char>, Seq<char>>;

    open spec fn view(&self) -> Map<Seq<char>, Seq<char>> {
        Map::new(
            |name: Seq<char>| self.pages@.contains_key(name),
            |name: Seq<char>| self.pages@[name]@,
        )
    }
}

impl AppPathsManifest {
    /// The manifest without routes.
    pub fn new() -> (res: AppPathsManifest)
        ensures
            res@ == Map::<Seq<char>, Seq<char>>::empty(),
    {
        let res = AppPathsManifest { pages: StringHashMap::new() };
        assert(res@ =~= Map::<Seq<char>, Seq<char>>::empty());
        res
    }

    /// Lists `path` for the route `name`, in place of what was listed for it.
    pub fn insert(&mut self, name: String, path: String)
        ensures
            final(self)@ == old(self)@.insert(name@, path@),
    {
        self.pages.insert(name, path);
        assert(self@ =~= old(self)@.insert(name@, path@));
    }
}

/// For each route, by its name, its client references with the chunks that
/// the client loads and the chunks that render them on the server.
pub struct ClientReferenceManifest {
    pub entries: StringHashMap<Vec<ReferenceChunks>>,
}

impl View for ClientReferenceManifest {
    type V = Map<Seq<char>, Seq<ReferenceChunksView>>;

    open spec fn view(&self) -> Map<Seq<char>, Seq<ReferenceChunksView>> {
        Map::new(
            |name: Seq<char>| self.entries@.contains_key(name),
            |name: Seq<char>| self.entries@[name].deep_view(),
        )
    }
}

impl ClientReferenceManifest {
    /// The manifest without routes.
    pub fn new() -> (res: ClientReferenceManifest)
        ensures
            res@ == Map::<Seq<char>, Seq<ReferenceChunksView>>::empty(),
    {
        let res = ClientReferenceManifest { entries: StringHashMap::new() };
        assert(res@ =~= Map::<Seq<char>, Seq<ReferenceChunksView>>::empty());
        res
    }

    /// Lists `references` for the route `name`, in place of what was listed
    /// for it.
    pub fn insert(&mut self, name: String, references: Vec<ReferenceChunks>)
        ensures
            final(self)@ == old(self)@.insert(name@, references.deep_view()),
    {
        self.entries.insert(name, references);
        assert(self@ =~= old(self)@.insert(name@, references.deep_view()));
    }
}

/// `map` after each of `items` was put into it in turn, a later item taking
/// the place of an earlier one with the same name.
pub open spec fn inserted<V>(map: Map<Seq<char>, V>, items: Seq<(Seq<char>, V)>) -> Map<
    Seq<char>,
    V,
>
    decreases items.len(),
{
    if items.len() == 0 {
        map
    } else {
        inserted(map, items.drop_last()).insert(items.last().0, items.last().1)
    }
}

/// The value of the last of `items` that goes by `name`.
pub open spec fn latest<V>(items: Seq<(Seq<char>, V)>, name: Seq<char>) -> Option<V>
    decreases items.len(),
{
    if items.len() == 0 {
        None
    } else if items.last().0 == name {
        Some(items.last().1)
    } else {
        latest(items.drop_last(), name)
    }
}

/// What a map holds under a name after items were put into it: the value of
/// the last item of that name, and what it held before where no item goes by
/// the name.
pub proof fn lemma_inserted<V>(map: Map<Seq<char>, V>, items: Seq<(Seq<char>, V)>, name: Seq<char>)
    ensures
        match latest(items, name) {
            Some(value) => inserted(map, items).contains_key(name) && inserted(map, items)[name]
                == value,
            None => inserted(map, items).contains_key(name) == map.contains_key(name) && inserted(
                map,
                items,
            )[name] == map[name],
        },
    decreases items.len(),
{
    if items.len() > 0 {
        lemma_inserted(map, items.drop_last(), name);
    }
}

/// An item goes by `name` exactly where `latest` finds a value for it.
pub proof fn lemma_latest_is_some<V>(items: Seq<(Seq<char>, V)>, name: Seq<char>)
    ensures
        latest(items, name) is Some <==> exists|i: int|
            0 <= i < items.len() && (#[trigger] items[i]).0 == name,
    decreases items.len(),
{
    if items.len() > 0 {
        let front = items.drop_last();
        lemma_latest_is_some(front, name);
        if items.last().0 == name {
            assert(items[items.len() - 1].0 == name);
        } else {
            if latest(front, name) is Some {
                let i = choose|i: int| 0 <= i < front.len() && (#[trigger] front[i]).0 == name;
                assert(items[i].0 == name);
            }
            if exists|i: int| 0 <= i < items.len() && (#[trigger] items[i]).0 == name {
                let i = choose|i: int| 0 <= i < items.len() && (#[trigger] items[i]).0 == name;
                assert(front[i].0 == name);
            }
        }
    }
}

/// The item at `i` is the one that `latest` finds for its name, where no
/// later item shares that name.
pub proof fn lemma_latest_of_unshadowed<V>(items: Seq<(Seq<char>, V)>, i: int)
    requires
        0 <= i < items.len(),
        forall|j: int| i < j < items.len() ==> (#[trigger] items[j]).0 != items[i].0,
    ensures
        latest(items, items[i].0) == Some(items[i].1),
    decreases items.len(),
{
    if i < items.len() - 1 {
        let front = items.drop_last();
        assert(items[items.len() - 1].0 != items[i].0);
        assert forall|j: int| i < j < front.len() implies (#[trigger] front[j]).0
            != front[i].0 by {
            assert(front[j] == items[j]);
        }
        lemma_latest_of_unshadowed(front, i);
    }
}

/// Putting the same items into a map a second time changes nothing.
pub proof fn lemma_inserted_twice<V>(map: Map<Seq<char>, V>, items: Seq<(Seq<char>, V)>)
    ensures
        inserted(inserted(map, items), items) == inserted(map, items),
{
    let once = inserted(map, items);
    let twice = inserted(once, items);
    assert forall|name: Seq<char>| #[trigger]
        twice.dom().contains(name) == once.dom().contains(name) by {
        lemma_inserted(map, items, name);
        lemma_inserted(once, items, name);
    }
    assert forall|name: Seq<char>| twice.dom().contains(name) implies #[trigger] twice[name]
        == once[name] by {
        lemma_inserted(map, items, name);
        lemma_inserted(once, items, name);
    }
    assert(twice =~= once);
}

/// A copy of `strings`.
pub(crate) fn duplicate_strings(strings: &Vec<String>) -> (res: Vec<String>)
    ensures
        res@ == strings@,
        res.deep_view() == strings.deep_view(),
{
    let mut res: Vec<String> = Vec::new();
    let mut i: usize = 0;
    while i < strings.len()
        invariant
            i <= strings.len(),
            res@ == strings@.take(i as int),
        decreases strings.len() - i,
    {
        res.push(strings[i].clone());
        assert(strings@.take(i + 1) =~= strings@.take(i as int).push(strings@[i as int]));
        i = i + 1;
    }
    assert(strings@.take(i as int) =~= strings@);
    assert(res.deep_view() =~= strings.deep_view());
    res
}

/// A copy of `references`.
pub(crate) fn duplicate_references(references: &Vec<ReferenceChunks>) -> (res: Vec<ReferenceChunks>)
    ensures
        res.deep_view() == references.deep_view(),
{
    let mut res: Vec<ReferenceChunks> = Vec::new();
    let mut i: usize = 0;
    while i < references.len()
        invariant
            i <= references.len(),
            res.len() == i,
            forall|j: int| 0 <= j < i ==> (#[trigger] res@[j])@ == references@[j]@,
        decreases references.len() - i,
    {
        res.push(
            ReferenceChunks {
                reference: references[i].reference,
                chunks: references[i].chunks.duplicate(),
            },
        );
        i = i + 1;
    }
    assert(res.deep_view() =~= references.deep_view());
    res
}

} // verus!
