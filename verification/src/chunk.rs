//! Chunks and the other assets that a build puts out, and the client
//! references with the chunks that were made for them.

use std::collections::HashMap;
use vstd::prelude::*;
use vstd::hash_map::StringHashMap;
use crate::fs_path::{FileSystemPath, PathView};
use crate::handle::ClientReference;
use crate::runtime_entry::EvaluatableAsset;

verus! {

/// A bundle of modules that a chunking context has made. The engine holds its
/// content under `id`; `path` is the identity under which it is put out.
#[derive(Clone, Debug, PartialEq, Eq)]
pub struct Chunk {
    pub id: u64,
    pub path: FileSystemPath,
}

/// What a [`Chunk`] denotes.
pub struct ChunkView {
    pub id: u64,
    pub path: PathView,
}

impl View for Chunk {
    type V = ChunkView;

    open spec fn view(&self) -> ChunkView {
        ChunkView { id: self.id, path: self.path@ }
    }
}

impl DeepView for Chunk {
    type V = ChunkView;

    open spec fn deep_view(&self) -> ChunkView {
        self@
    }
}

impl Chunk {
    /// A copy of this chunk.
    pub fn duplicate(&self) -> (res: Chunk)
        ensures
            res == *self,
    {
        Chunk { id: self.id, path: self.path.duplicate() }
    }
}

/// A copy of `chunks`.
pub(crate) fn duplicate_chunks(chunks: &Vec<Chunk>) -> (res: Vec<Chunk>)
    ensures
        res@ == chunks@,
{
    let mut res: Vec<Chunk> = Vec::new();
    let mut i: usize = 0;
    while i < chunks.len()
        invariant
            i <= chunks.len(),
            res@ == chunks@.take(i as int),
        decreases chunks.len() - i,
    {
        res.push(chunks[i].duplicate());
        assert(chunks@.take(i + 1) =~= chunks@.take(i as int).push(chunks@[i as int]));
        i = i + 1;
    }
    assert(chunks@.take(i as int) =~= chunks@);
    res
}

/// The chunks that were made for one client reference: those that the client
/// loads, and those that render it on the server.
#[derive(Clone, Debug, PartialEq, Eq)]
pub struct ClientReferenceChunks {
    pub client_chunks: Vec<Chunk>,
    pub ssr_chunks: Vec<Chunk>,
}

/// What [`ClientReferenceChunks`] denote.
pub struct ClientReferenceChunksView {
    pub client_chunks: Seq<ChunkView>,
    pub ssr_chunks: Seq<ChunkView>,
}

impl View for ClientReferenceChunks {
    type V = ClientReferenceChunksView;

    open spec fn view(&self) -> ClientReferenceChunksView {
        ClientReferenceChunksView {
            client_chunks: self.client_chunks.deep_view(),
            ssr_chunks: self.ssr_chunks.deep_view(),
        }
    }
}

impl ClientReferenceChunks {
    /// A copy of these chunks.
    pub fn duplicate(&self) -> (res: ClientReferenceChunks)
        ensures
            res@ == self@,
    {
        let res = ClientReferenceChunks {
            client_chunks: duplicate_chunks(&self.client_chunks),
            ssr_chunks: duplicate_chunks(&self.ssr_chunks),
        };
        assert(res.client_chunks.deep_view() =~= self.client_chunks.deep_view());
        assert(res.ssr_chunks.deep_view() =~= self.ssr_chunks.deep_view());
        res
    }
}

/// The chunks of every client reference of a build, by the number of the
/// reference.
pub struct ClientReferencesChunks {
    pub chunks: HashMap<u64, ClientReferenceChunks>,
}

impl View for ClientReferencesChunks {
    type V = Map<u64, ClientReferenceChunksView>;

    open spec fn view(&self) -> Map<u64, ClientReferenceChunksView> {
        Map::new(|id: u64| self.chunks@.contains_key(id), |id: u64| self.chunks@[id]@)
    }
}

impl ClientReferencesChunks {
    /// No chunks for any reference.
    pub fn new() -> (res: ClientReferencesChunks)
        ensures
            res@ == Map::<u64, ClientReferenceChunksView>::empty(),
    {
        let res = ClientReferencesChunks { chunks: HashMap::new() };
        assert(res@ =~= Map::<u64, ClientReferenceChunksView>::empty());
        res
    }

    /// Records `chunks` as those of `reference`, in place of what was
    /// recorded for it.
    pub fn insert(&mut self, reference: ClientReference, chunks: ClientReferenceChunks)
        ensures
            final(self)@ == old(self)@.insert(reference.id, chunks@),
    {
        self.chunks.insert(reference.id, chunks);
        assert(self@ =~= old(self)@.insert(reference.id, chunks@));
    }

    /// The chunks that were made for `reference`.
    pub fn get(&self, reference: ClientReference) -> (res: Option<&ClientReferenceChunks>)
        ensures
            res is Some == self@.contains_key(reference.id),
            res matches Some(chunks) ==> chunks@ == self@[reference.id],
    {
        self.chunks.get(&reference.id)
    }
}

/// For each entry, by its name, the client references that can be reached
/// from its server-component module, in the order in which the graph lists
/// them.
pub struct ClientReferenceGraph {
    pub entries: StringHashMap<Vec<ClientReference>>,
}

impl View for ClientReferenceGraph {
    type V = Map<Seq<char>, Seq<ClientReference>>;

    open spec fn view(&self) -> Map<Seq<char>, Seq<ClientReference>> {
        Map::new(
            |name: Seq<char>| self.entries@.contains_key(name),
            |name: Seq<char>| self.entries@[name]@,
        )
    }
}

/// The client references of the entry `name`: those that the graph lists for
/// it, and none where it lists the entry not at all.
pub open spec fn references_of(graph: Map<Seq<char>, Seq<ClientReference>>, name: Seq<char>)
    -> Seq<ClientReference> {
    if graph.contains_key(name) {
        graph[name]
    } else {
        Seq::empty()
    }
}

impl ClientReferenceGraph {
    /// The graph of a build without entries.
    pub fn new() -> (res: ClientReferenceGraph)
        ensures
            res@ == Map::<Seq<char>, Seq<ClientReference>>::empty(),
    {
        let res = ClientReferenceGraph { entries: StringHashMap::new() };
        assert(res@ =~= Map::<Seq<char>, Seq<ClientReference>>::empty());
        res
    }

    /// Records `references` as those of the entry `name`, in place of what
    /// was recorded for it.
    pub fn insert(&mut self, name: String, references: Vec<ClientReference>)
        ensures
            final(self)@ == old(self)@.insert(name@, references@),
    {
        self.entries.insert(name, references);
        assert(self@ =~= old(self)@.insert(name@, references@));
    }

    /// The client references of the entry `name`. `None` stands for no
    /// reference.
    pub fn entry(&self, name: &str) -> (res: Option<&Vec<ClientReference>>)
        ensures
            match res {
                Some(references) => references@ == references_of(self@, name@),
                None => references_of(self@, name@) == Seq::<ClientReference>::empty(),
            },
    {
        self.entries.get(name)
    }
}

/// One client reference of an entry with the chunks that were made for it.
#[derive(Clone, Debug, PartialEq, Eq)]
pub struct ReferenceChunks {
    pub reference: ClientReference,
    pub chunks: ClientReferenceChunks,
}

/// What [`ReferenceChunks`] denote.
pub struct ReferenceChunksView {
    pub reference: ClientReference,
    pub chunks: ClientReferenceChunksView,
}

impl View for ReferenceChunks {
    type V = ReferenceChunksView;

    open spec fn view(&self) -> ReferenceChunksView {
        ReferenceChunksView { reference: self.reference, chunks: self.chunks@ }
    }
}

impl DeepView for ReferenceChunks {
    type V = ReferenceChunksView;

    open spec fn deep_view(&self) -> ReferenceChunksView {
        self@
    }
}

/// Something that the build puts out.
#[derive(Clone, Debug, PartialEq, Eq)]
pub enum OutputAsset {
    /// A chunk that a chunking context has made.
    Chunk(Chunk),
    /// The chunk to be made at `path` for the entry named: it evaluates the
    /// runtime entries in their order, then the server-component module of
    /// the entry.
    EntryChunk { path: FileSystemPath, entry: String, runtime_entries: Vec<EvaluatableAsset> },
    /// The manifest of the client references of the entry named.
    ClientReferenceManifest { entry: String },
}

/// What an [`OutputAsset`] denotes.
pub enum OutputAssetView {
    Chunk(ChunkView),
    EntryChunk { path: PathView, entry: Seq<char>, runtime_entries: Seq<EvaluatableAsset> },
    ClientReferenceManifest { entry: Seq<char> },
}

impl View for OutputAsset {
    type V = OutputAssetView;

    open spec fn view(&self) -> OutputAssetView {
        match self {
            OutputAsset::Chunk(chunk) => OutputAssetView::Chunk(chunk@),
            OutputAsset::EntryChunk { path, entry, runtime_entries } => {
                OutputAssetView::EntryChunk {
                    path: path@,
                    entry: entry@,
                    runtime_entries: runtime_entries@,
                }
            },
            OutputAsset::ClientReferenceManifest { entry } => {
                OutputAssetView::ClientReferenceManifest { entry: entry@ }
            },
        }
    }
}

impl DeepView for OutputAsset {
    type V = OutputAssetView;

    open spec fn deep_view(&self) -> OutputAssetView {
        self@
    }
}

} // verus!
