//! Chunk and manifest assembly: from the entries of an app and the chunks
//! that were made for it to the manifests and the list of all that the build
//! puts out.

use vstd::prelude::*;
use vstd::string::*;
use crate::app_entries::{AppEntry, AppEntryView};
use crate::chunk::{
    duplicate_chunks,
    references_of,
    Chunk,
    ChunkView,
    ClientReferenceChunksView,
    ClientReferenceGraph,
    ClientReferencesChunks,
    ReferenceChunks,
    ReferenceChunksView,
};
use crate::error::{Error, ErrorView};
use crate::fs_path::{is_inside, is_script_path, joined, path_to, FileSystemPath, PathView};
use crate::handle::ClientReference;

verus! {

/// The three directories that paths of a build are stated against.
pub struct Roots {
    /// Where all that runs on the server is put out.
    pub node_root: PathView,
    /// Where all that the client loads is put out.
    pub client_root: PathView,
    /// The directory of the app paths manifest.
    pub app_paths_manifest_dir: PathView,
}

/// Where the server-component chunk of the route `name` is put out, below the
/// server's root.
pub open spec fn rsc_chunk_name(name: Seq<char>) -> Seq<char> {
    "server/app/"@ + name + ".js"@
}

/// The path of the server-component chunk of the route `name`.
pub open spec fn rsc_chunk_path(node_root: PathView, name: Seq<char>) -> PathView {
    joined(node_root, rsc_chunk_name(name))
}

/// A script that is not below the client root.
pub open spec fn is_stray_script(chunk: ChunkView, client_root: PathView) -> bool {
    is_script_path(chunk.path.path) && !is_inside(client_root, chunk.path)
}

/// `i` is the first position of a stray script among `chunks`.
pub open spec fn is_first_stray_script(chunks: Seq<ChunkView>, client_root: PathView, i: int)
    -> bool {
    &&& 0 <= i < chunks.len()
    &&& is_stray_script(chunks[i], client_root)
    &&& forall|j: int| 0 <= j < i ==> !is_stray_script(#[trigger] chunks[j], client_root)
}

/// The paths of the scripts among `chunks`, in their order, each from the
/// client root.
pub open spec fn script_paths(chunks: Seq<ChunkView>, client_root: PathView) -> Seq<Seq<char>>
    decreases chunks.len(),
{
    if chunks.len() == 0 {
        Seq::empty()
    } else {
        let before = script_paths(chunks.drop_last(), client_root);
        if is_script_path(chunks.last().path.path) {
            before.push(path_to(client_root, chunks.last().path).unwrap())
        } else {
            before
        }
    }
}

/// The paths that every route lists after its own: those of the scripts
/// among the shared chunks. A script outside the client root is a fault, and
/// the first such script is the one reported.
pub open spec fn shared_paths(shared: Seq<ChunkView>, client_root: PathView) -> Result<
    Seq<Seq<char>>,
    ErrorView,
> {
    if exists|i: int| 0 <= i < shared.len() && is_stray_script(#[trigger] shared[i], client_root) {
        let first = choose|i: int| is_first_stray_script(shared, client_root, i);
        Err(ErrorView::OutsideClientRoot { path: shared[first].path })
    } else {
        Ok(script_paths(shared, client_root))
    }
}

/// `i` is the first position of a chunk outside the client root.
pub open spec fn is_first_outside(chunks: Seq<ChunkView>, client_root: PathView, i: int) -> bool {
    &&& 0 <= i < chunks.len()
    &&& !is_inside(client_root, chunks[i].path)
    &&& forall|j: int| 0 <= j < i ==> is_inside(client_root, (#[trigger] chunks[j]).path)
}

/// The paths of all `chunks`, each from the client root. A chunk outside the
/// client root is a fault, and the first such chunk is the one reported.
pub open spec fn relative_paths(chunks: Seq<ChunkView>, client_root: PathView) -> Result<
    Seq<Seq<char>>,
    ErrorView,
> {
    if exists|i: int| 0 <= i < chunks.len() && !is_inside(client_root, (#[trigger] chunks[i]).path) {
        let first = choose|i: int| is_first_outside(chunks, client_root, i);
        Err(ErrorView::OutsideClientRoot { path: chunks[first].path })
    } else {
        Ok(Seq::new(chunks.len(), |i: int| path_to(client_root, chunks[i].path).unwrap()))
    }
}

/// `i` is the first position of a reference without chunks.
pub open spec fn is_first_missing(
    references: Seq<ClientReference>,
    chunks: Map<u64, ClientReferenceChunksView>,
    i: int,
) -> bool {
    &&& 0 <= i < references.len()
    &&& !chunks.contains_key(references[i].id)
    &&& forall|j: int| 0 <= j < i ==> chunks.contains_key((#[trigger] references[j]).id)
}

/// Each of `references` with the chunks that were made for it. A reference
/// without chunks is a fault, and the first such reference is the one
/// reported.
pub open spec fn referenced_chunks(
    references: Seq<ClientReference>,
    chunks: Map<u64, ClientReferenceChunksView>,
) -> Result<Seq<ReferenceChunksView>, ErrorView> {
    if exists|i: int|
        0 <= i < references.len() && !chunks.contains_key((#[trigger] references[i]).id) {
        let first = choose|i: int| is_first_missing(references, chunks, i);
        Err(ErrorView::MissingClientReferenceChunks { reference: references[first] })
    } else {
        Ok(
            Seq::new(
                references.len(),
                |i: int|
                    ReferenceChunksView {
                        reference: references[i],
                        chunks: chunks[references[i].id],
                    },
            ),
        )
    }
}

/// The client chunks of all `references`, one reference after the other.
pub open spec fn client_chunks_of(references: Seq<ReferenceChunksView>) -> Seq<ChunkView>
    decreases references.len(),
{
    if references.len() == 0 {
        Seq::empty()
    } else {
        client_chunks_of(references.drop_last()) + references.last().chunks.client_chunks
    }
}

/// What assembly has worked out for one entry.
#[derive(Clone, Debug, PartialEq, Eq)]
pub struct EntryAssembly {
    /// The name of the route.
    pub original_name: String,
    /// Where the server-component chunk of the route is put out.
    pub rsc_chunk_path: FileSystemPath,
    /// The same, from the directory of the app paths manifest.
    pub rsc_path: String,
    /// The client chunks of the route itself, each from the client root.
    pub client_paths: Vec<String>,
    /// The client references of the route with their chunks.
    pub references: Vec<ReferenceChunks>,
}

/// What an [`EntryAssembly`] denotes.
pub struct EntryAssemblyView {
    pub original_name: Seq<char>,
    pub rsc_chunk_path: PathView,
    pub rsc_path: Seq<char>,
    pub client_paths: Seq<Seq<char>>,
    pub references: Seq<ReferenceChunksView>,
}

impl View for EntryAssembly {
    type V = EntryAssemblyView;

    open spec fn view(&self) -> EntryAssemblyView {
        EntryAssemblyView {
            original_name: self.original_name@,
            rsc_chunk_path: self.rsc_chunk_path@,
            rsc_path: self.rsc_path@,
            client_paths: self.client_paths.deep_view(),
            references: self.references.deep_view(),
        }
    }
}

impl DeepView for EntryAssembly {
    type V = EntryAssemblyView;

    open spec fn deep_view(&self) -> EntryAssemblyView {
        self@
    }
}

/// What assembly works out for the entry named `name`: the chunks of its
/// client references are looked up, then their client chunks are stated from
/// the client root, then its server-component chunk is stated from the
/// directory of the app paths manifest. The first of these steps that meets a
/// fault decides the outcome.
pub open spec fn entry_assembly(
    name: Seq<char>,
    graph: Map<Seq<char>, Seq<ClientReference>>,
    chunks: Map<u64, ClientReferenceChunksView>,
    roots: Roots,
) -> Result<EntryAssemblyView, ErrorView> {
    match referenced_chunks(references_of(graph, name), chunks) {
        Err(e) => Err(e),
        Ok(references) => match relative_paths(client_chunks_of(references), roots.client_root) {
            Err(e) => Err(e),
            Ok(client_paths) => {
                let rsc_chunk_path = rsc_chunk_path(roots.node_root, name);
                match path_to(roots.app_paths_manifest_dir, rsc_chunk_path) {
                    None => Err(ErrorView::OutsideAppPathsManifestDir { path: rsc_chunk_path }),
                    Some(rsc_path) => Ok(
                        EntryAssemblyView {
                            original_name: name,
                            rsc_chunk_path,
                            rsc_path,
                            client_paths,
                            references,
                        },
                    ),
                }
            },
        }
    }
}

/// `i` is the first position of an entry whose assembly meets a fault.
pub open spec fn is_first_faulty(
    entries: Seq<AppEntryView>,
    graph: Map<Seq<char>, Seq<ClientReference>>,
    chunks: Map<u64, ClientReferenceChunksView>,
    roots: Roots,
    i: int,
) -> bool {
    &&& 0 <= i < entries.len()
    &&& entry_assembly(entries[i].original_name, graph, chunks, roots) is Err
    &&& forall|j: int|
        0 <= j < i ==> entry_assembly((#[trigger] entries[j]).original_name, graph, chunks, roots)
            is Ok
}

/// The assemblies of all entries, in the order of the entries. The fault of
/// the first entry that meets one is the fault of all.
pub open spec fn entry_assemblies(
    entries: Seq<AppEntryView>,
    graph: Map<Seq<char>, Seq<ClientReference>>,
    chunks: Map<u64, ClientReferenceChunksView>,
    roots: Roots,
) -> Result<Seq<EntryAssemblyView>, ErrorView> {
    if exists|i: int|
        0 <= i < entries.len() && entry_assembly(
            (#[trigger] entries[i]).original_name,
            graph,
            chunks,
            roots,
        ) is Err {
        let first = choose|i: int| is_first_faulty(entries, graph, chunks, roots, i);
        Err(entry_assembly(entries[first].original_name, graph, chunks, roots)->Err_0)
    } else {
        Ok(
            Seq::new(
                entries.len(),
                |i: int| entry_assembly(entries[i].original_name, graph, chunks, roots)->Ok_0,
            ),
        )
    }
}

/// What assembly has worked out for a whole app.
#[derive(Clone, Debug, PartialEq, Eq)]
pub struct Assembly {
    /// The chunks that all routes share.
    pub shared_chunks: Vec<Chunk>,
    /// The paths of the scripts among them, each from the client root.
    pub shared_paths: Vec<String>,
    /// What was worked out for each entry, in the order of the entries.
    pub entries: Vec<EntryAssembly>,
}

/// What an [`Assembly`] denotes.
pub struct AssemblyView {
    pub shared_chunks: Seq<ChunkView>,
    pub shared_paths: Seq<Seq<char>>,
    pub entries: Seq<EntryAssemblyView>,
}

impl View for Assembly {
    type V = AssemblyView;

    open spec fn view(&self) -> AssemblyView {
        AssemblyView {
            shared_chunks: self.shared_chunks.deep_view(),
            shared_paths: self.shared_paths.deep_view(),
            entries: self.entries.deep_view(),
        }
    }
}

/// What assembly works out for an app: first the paths of the shared
/// scripts, then each entry in turn. The first fault that is met on this way
/// is the outcome.
pub open spec fn assembly(
    entries: Seq<AppEntryView>,
    graph: Map<Seq<char>, Seq<ClientReference>>,
    chunks: Map<u64, ClientReferenceChunksView>,
    shared: Seq<ChunkView>,
    roots: Roots,
) -> Result<AssemblyView, ErrorView> {
    match shared_paths(shared, roots.client_root) {
        Err(e) => Err(e),
        Ok(shared_paths) => match entry_assemblies(entries, graph, chunks, roots) {
            Err(e) => Err(e),
            Ok(entries) => Ok(AssemblyView { shared_chunks: shared, shared_paths, entries }),
        },
    }
}

/// The path at which the server-component chunk of the route `name` is put
/// out: `server/app/`, the name and `.js`, below the server's root.
pub fn rsc_chunk_output_path(node_root: &FileSystemPath, name: &String) -> (res: FileSystemPath)
    ensures
        res@ == rsc_chunk_path(node_root@, name@),
{
    let mut rel = String::from_str("server/app/");
    rel.append(name.as_str());
    rel.append(".js");
    node_root.join(rel.as_str())
}

/// The paths of the scripts among the shared chunks, each from the client
/// root; or the fault of the first script that lies outside that root.
pub fn shared_chunk_paths(shared: &Vec<Chunk>, client_root: &FileSystemPath) -> (res: Result<
    Vec<String>,
    Error,
>)
    ensures
        match res {
            Ok(paths) => shared_paths(shared.deep_view(), client_root@) == Ok::<
                Seq<Seq<char>>,
                ErrorView,
            >(paths.deep_view()),
            Err(e) => shared_paths(shared.deep_view(), client_root@) == Err::<
                Seq<Seq<char>>,
                ErrorView,
            >(e@),
        },
{
    let ghost chunks = shared.deep_view();
    let mut paths: Vec<String> = Vec::new();
    let mut i: usize = 0;
    assert(paths.deep_view() =~= script_paths(chunks.take(0), client_root@));
    while i < shared.len()
        invariant
            i <= shared.len(),
            chunks == shared.deep_view(),
            forall|j: int| 0 <= j < i ==> !is_stray_script(#[trigger] chunks[j], client_root@),
            paths.deep_view() == script_paths(chunks.take(i as int), client_root@),
        decreases shared.len() - i,
    {
        let chunk = &shared[i];
        proof {
            assert(chunks.take(i + 1).drop_last() =~= chunks.take(i as int));
            assert(chunks.take(i + 1).last() == chunk@);
        }
        if chunk.path.is_script() {
            match client_root.get_path_to(&chunk.path) {
                Some(chunk_path) => {
                    let ghost before = paths.deep_view();
                    paths.push(chunk_path);
                    assert(paths.deep_view() =~= before.push(chunk_path@));
                },
                None => {
                    proof {
                        assert(is_first_stray_script(chunks, client_root@, i as int));
                        let first = choose|k: int| is_first_stray_script(chunks, client_root@, k);
                        assert(first == i);
                    }
                    return Err(Error::OutsideClientRoot { path: chunk.path.duplicate() });
                },
            }
        }
        i = i + 1;
    }
    assert(chunks.take(i as int) =~= chunks);
    Ok(paths)
}

/// The paths of all `chunks`, each from the client root; or the fault of the
/// first chunk that lies outside that root.
pub fn relativize_chunks(chunks: &Vec<Chunk>, client_root: &FileSystemPath) -> (res: Result<
    Vec<String>,
    Error,
>)
    ensures
        match res {
            Ok(paths) => relative_paths(chunks.deep_view(), client_root@) == Ok::<
                Seq<Seq<char>>,
                ErrorView,
            >(paths.deep_view()),
            Err(e) => relative_paths(chunks.deep_view(), client_root@) == Err::<
                Seq<Seq<char>>,
                ErrorView,
            >(e@),
        },
{
    let ghost all = chunks.deep_view();
    let mut paths: Vec<String> = Vec::new();
    let mut i: usize = 0;
    while i < chunks.len()
        invariant
            i <= chunks.len(),
            all == chunks.deep_view(),
            paths.len() == i,
            forall|j: int| 0 <= j < i ==> is_inside(client_root@, (#[trigger] all[j]).path),
            forall|j: int|
                0 <= j < i ==> Some((#[trigger] paths@[j])@) == path_to(client_root@, all[j].path),
        decreases chunks.len() - i,
    {
        let chunk = &chunks[i];
        assert(all[i as int] == chunk@);
        match client_root.get_path_to(&chunk.path) {
            Some(chunk_path) => {
                paths.push(chunk_path);
            },
            None => {
                proof {
                    assert(is_first_outside(all, client_root@, i as int));
                    let first = choose|k: int| is_first_outside(all, client_root@, k);
                    assert(first == i);
                }
                return Err(Error::OutsideClientRoot { path: chunk.path.duplicate() });
            },
        }
        i = i + 1;
    }
    assert(paths.deep_view() =~= Seq::new(
        all.len(),
        |i: int| path_to(client_root@, all[i].path).unwrap(),
    ));
    Ok(paths)
}

/// Each of `references` with a copy of the chunks that were made for it; or
/// the fault of the first reference for which none were made.
pub fn collect_reference_chunks(references: &Vec<ClientReference>, chunks: &ClientReferencesChunks)
    -> (res: Result<Vec<ReferenceChunks>, Error>)
    ensures
        match res {
            Ok(found) => referenced_chunks(references@, chunks@) == Ok::<
                Seq<ReferenceChunksView>,
                ErrorView,
            >(found.deep_view()),
            Err(e) => referenced_chunks(references@, chunks@) == Err::<
                Seq<ReferenceChunksView>,
                ErrorView,
            >(e@),
        },
{
    let mut found: Vec<ReferenceChunks> = Vec::new();
    let mut i: usize = 0;
    while i < references.len()
        invariant
            i <= references.len(),
            found.len() == i,
            forall|j: int| 0 <= j < i ==> chunks@.contains_key((#[trigger] references@[j]).id),
            forall|j: int|
                0 <= j < i ==> (#[trigger] found@[j])@ == (ReferenceChunksView {
                    reference: references@[j],
                    chunks: chunks@[references@[j].id],
                }),
        decreases references.len() - i,
    {
        let reference = references[i];
        match chunks.get(reference) {
            Some(reference_chunks) => {
                found.push(ReferenceChunks { reference, chunks: reference_chunks.duplicate() });
            },
            None => {
                proof {
                    assert(is_first_missing(references@, chunks@, i as int));
                    let first = choose|k: int| is_first_missing(references@, chunks@, k);
                    assert(first == i);
                }
                return Err(Error::MissingClientReferenceChunks { reference });
            },
        }
        i = i + 1;
    }
    assert(found.deep_view() =~= Seq::new(
        references@.len(),
        |i: int|
            ReferenceChunksView { reference: references@[i], chunks: chunks@[references@[i].id] },
    ));
    Ok(found)
}

/// The client chunks of all `references`, one reference after the other.
pub fn collect_client_chunks(references: &Vec<ReferenceChunks>) -> (res: Vec<Chunk>)
    ensures
        res.deep_view() == client_chunks_of(references.deep_view()),
{
    let ghost all = references.deep_view();
    let mut client_chunks: Vec<Chunk> = Vec::new();
    let mut i: usize = 0;
    assert(client_chunks.deep_view() =~= client_chunks_of(all.take(0)));
    while i < references.len()
        invariant
            i <= references.len(),
            all == references.deep_view(),
            client_chunks.deep_view() == client_chunks_of(all.take(i as int)),
        decreases references.len() - i,
    {
        let more = duplicate_chunks(&references[i].chunks.client_chunks);
        proof {
            assert(all.take(i + 1).drop_last() =~= all.take(i as int));
            assert(all.take(i + 1).last() == references@[i as int]@);
            assert(more.deep_view() =~= references@[i as int].chunks.client_chunks.deep_view());
        }
        let ghost before = client_chunks.deep_view();
        let ghost added = more.deep_view();
        let mut more = more;
        client_chunks.append(&mut more);
        assert(client_chunks.deep_view() =~= before + added);
        i = i + 1;
    }
    assert(all.take(i as int) =~= all);
    client_chunks
}

/// Works out one entry: the chunks of its client references, the paths of
/// their client chunks from the client root, and the path of its
/// server-component chunk from the directory of the app paths manifest.
pub fn assemble_entry(
    entry: &AppEntry,
    app_client_reference_graph: &ClientReferenceGraph,
    app_client_references_chunks: &ClientReferencesChunks,
    node_root: &FileSystemPath,
    client_relative_path: &FileSystemPath,
    app_paths_manifest_dir_path: &FileSystemPath,
) -> (res: Result<EntryAssembly, Error>)
    ensures
        match res {
            Ok(assembled) => entry_assembly(
                entry@.original_name,
                app_client_reference_graph@,
                app_client_references_chunks@,
                Roots {
                    node_root: node_root@,
                    client_root: client_relative_path@,
                    app_paths_manifest_dir: app_paths_manifest_dir_path@,
                },
            ) == Ok::<EntryAssemblyView, ErrorView>(assembled@),
            Err(e) => entry_assembly(
                entry@.original_name,
                app_client_reference_graph@,
                app_client_references_chunks@,
                Roots {
                    node_root: node_root@,
                    client_root: client_relative_path@,
                    app_paths_manifest_dir: app_paths_manifest_dir_path@,
                },
            ) == Err::<EntryAssemblyView, ErrorView>(e@),
        },
{
    let found = match app_client_reference_graph.entry(entry.original_name.as_str()) {
        Some(references) => collect_reference_chunks(references, app_client_references_chunks),
        None => {
            let none: Vec<ClientReference> = Vec::new();
            collect_reference_chunks(&none, app_client_references_chunks)
        },
    };
    let references = match found {
        Ok(references) => references,
        Err(e) => {
            return Err(e);
        },
    };
    let client_chunks = collect_client_chunks(&references);
    let client_paths = match relativize_chunks(&client_chunks, client_relative_path) {
        Ok(paths) => paths,
        Err(e) => {
            return Err(e);
        },
    };
    let rsc_chunk_path = rsc_chunk_output_path(node_root, &entry.original_name);
    match app_paths_manifest_dir_path.get_path_to(&rsc_chunk_path) {
        Some(rsc_path) => Ok(
            EntryAssembly {
                original_name: entry.original_name.clone(),
                rsc_chunk_path,
                rsc_path,
                client_paths,
                references,
            },
        ),
        None => Err(Error::OutsideAppPathsManifestDir { path: rsc_chunk_path }),
    }
}

/// Works out a whole app without changing anything: the paths of the shared
/// scripts, then each entry in the order of discovery. Stops at the first
/// fault.
pub fn assemble(
    entries: &Vec<AppEntry>,
    app_client_reference_graph: &ClientReferenceGraph,
    app_client_references_chunks: &ClientReferencesChunks,
    app_client_shared_chunks: &Vec<Chunk>,
    node_root: &FileSystemPath,
    client_relative_path: &FileSystemPath,
    app_paths_manifest_dir_path: &FileSystemPath,
) -> (res: Result<Assembly, Error>)
    ensures
        match res {
            Ok(assembled) => assembly(
                entries.deep_view(),
                app_client_reference_graph@,
                app_client_references_chunks@,
                app_client_shared_chunks.deep_view(),
                Roots {
                    node_root: node_root@,
                    client_root: client_relative_path@,
                    app_paths_manifest_dir: app_paths_manifest_dir_path@,
                },
            ) == Ok::<AssemblyView, ErrorView>(assembled@),
            Err(e) => assembly(
                entries.deep_view(),
                app_client_reference_graph@,
                app_client_references_chunks@,
                app_client_shared_chunks.deep_view(),
                Roots {
                    node_root: node_root@,
                    client_root: client_relative_path@,
                    app_paths_manifest_dir: app_paths_manifest_dir_path@,
                },
            ) == Err::<AssemblyView, ErrorView>(e@),
        },
{
    let ghost roots = Roots {
        node_root: node_root@,
        client_root: client_relative_path@,
        app_paths_manifest_dir: app_paths_manifest_dir_path@,
    };
    let ghost all = entries.deep_view();
    let ghost graph = app_client_reference_graph@;
    let ghost chunks = app_client_references_chunks@;

    let shared_paths = match shared_chunk_paths(app_client_shared_chunks, client_relative_path) {
        Ok(paths) => paths,
        Err(e) => {
            return Err(e);
        },
    };

    let mut assembled: Vec<EntryAssembly> = Vec::new();
    let mut i: usize = 0;
    while i < entries.len()
        invariant
            i <= entries.len(),
            all == entries.deep_view(),
            graph == app_client_reference_graph@,
            chunks == app_client_references_chunks@,
            roots == (Roots {
                node_root: node_root@,
                client_root: client_relative_path@,
                app_paths_manifest_dir: app_paths_manifest_dir_path@,
            }),
            self::shared_paths(app_client_shared_chunks.deep_view(), client_relative_path@)
                == Ok::<Seq<Seq<char>>, ErrorView>(shared_paths.deep_view()),
            assembled.len() == i,
            forall|j: int|
                0 <= j < i ==> entry_assembly(
                    (#[trigger] all[j]).original_name,
                    graph,
                    chunks,
                    roots,
                ) == Ok::<EntryAssemblyView, ErrorView>(assembled@[j]@),
        decreases entries.len() - i,
    {
        let entry = &entries[i];
        assert(all[i as int] == entry@);
        match assemble_entry(
            entry,
            app_client_reference_graph,
            app_client_references_chunks,
            node_root,
            client_relative_path,
            app_paths_manifest_dir_path,
        ) {
            Ok(entry_assembly) => {
                assembled.push(entry_assembly);
            },
            Err(e) => {
                proof {
                    assert(is_first_faulty(all, graph, chunks, roots, i as int));
                    let first = choose|k: int| is_first_faulty(all, graph, chunks, roots, k);
                    assert(first == i);
                }
                return Err(e);
            },
        }
        i = i + 1;
    }
    proof {
        assert(assembled.deep_view() =~= Seq::new(
            all.len(),
            |i: int| entry_assembly(all[i].original_name, graph, chunks, roots)->Ok_0,
        ));
    }
    Ok(
        Assembly {
            shared_chunks: duplicate_chunks(app_client_shared_chunks),
            shared_paths,
            entries: assembled,
        },
    )
}

} // verus!
