//! The assembly pass of a build: all chunks of the entries of an app are
//! listed, and the manifests are filled.

use vstd::prelude::*;
use vstd::string::*;
use crate::app_entries::{AppEntries, AppEntriesView, AppEntryView};
use crate::assembly::{
    assemble,
    assembly,
    client_chunks_of,
    entry_assemblies,
    entry_assembly,
    is_first_faulty,
    is_stray_script,
    referenced_chunks,
    relative_paths,
    rsc_chunk_name,
    rsc_chunk_path,
    shared_paths,
    Assembly,
    AssemblyView,
    EntryAssemblyView,
    Roots,
};
use crate::chunk::{
    references_of,
    Chunk,
    ChunkView,
    ClientReferenceChunksView,
    ClientReferenceGraph,
    ClientReferencesChunks,
    OutputAsset,
    OutputAssetView,
    ReferenceChunksView,
};
use crate::error::{class_of, Error, ErrorClass, ErrorView};
use crate::fs_path::{
    is_inside,
    is_script_path,
    lemma_join_then_path_to,
    lemma_script_path_ends_in_dot_js,
    path_to,
    FileSystemPath,
};
use crate::handle::ClientReference;
use crate::runtime_entry::{duplicate_assets, EvaluatableAsset};
use crate::manifest::{
    duplicate_references,
    duplicate_strings,
    inserted,
    latest,
    lemma_inserted,
    lemma_inserted_twice,
    lemma_latest_is_some,
    lemma_latest_of_unshadowed,
    with_root_file,
    AppBuildManifest,
    AppPathsManifest,
    BuildManifest,
    ClientReferenceManifest,
};

verus! {

/// What the four manifests and the list of outputs hold.
pub struct Manifests {
    pub build_manifest: Seq<Seq<char>>,
    pub app_build_manifest: Map<Seq<char>, Seq<Seq<char>>>,
    pub app_paths_manifest: Map<Seq<char>, Seq<char>>,
    pub client_reference_manifest: Map<Seq<char>, Seq<ReferenceChunksView>>,
    pub all_chunks: Seq<OutputAssetView>,
}

/// `files` after each of `paths` was added in turn, unless it was there.
pub open spec fn with_root_files(files: Seq<Seq<char>>, paths: Seq<Seq<char>>) -> Seq<Seq<char>>
    decreases paths.len(),
{
    if paths.len() == 0 {
        files
    } else {
        with_root_file(with_root_files(files, paths.drop_last()), paths.last())
    }
}

/// What the app build manifest lists for each entry: the client chunks of
/// the entry itself, then the shared ones.
pub open spec fn page_items(entries: Seq<EntryAssemblyView>, shared: Seq<Seq<char>>) -> Seq<
    (Seq<char>, Seq<Seq<char>>),
> {
    Seq::new(
        entries.len(),
        |i: int| (entries[i].original_name, entries[i].client_paths + shared),
    )
}

/// What the app paths manifest lists for each entry: the path of its
/// server-component chunk.
pub open spec fn app_path_items(entries: Seq<EntryAssemblyView>) -> Seq<(Seq<char>, Seq<char>)> {
    Seq::new(entries.len(), |i: int| (entries[i].original_name, entries[i].rsc_path))
}

/// What the client reference manifest lists for each entry: its client
/// references with their chunks.
pub open spec fn client_reference_items(entries: Seq<EntryAssemblyView>) -> Seq<
    (Seq<char>, Seq<ReferenceChunksView>),
> {
    Seq::new(entries.len(), |i: int| (entries[i].original_name, entries[i].references))
}

/// The shared chunks as outputs.
pub open spec fn chunk_outputs(chunks: Seq<ChunkView>) -> Seq<OutputAssetView> {
    Seq::new(chunks.len(), |i: int| OutputAssetView::Chunk(chunks[i]))
}

/// The outputs of the entries: for each entry its server-component chunk,
/// which evaluates `runtime_entries` before the entry, then its client
/// reference manifest.
pub open spec fn entry_outputs(
    entries: Seq<EntryAssemblyView>,
    runtime_entries: Seq<EvaluatableAsset>,
) -> Seq<OutputAssetView>
    decreases entries.len(),
{
    if entries.len() == 0 {
        Seq::empty()
    } else {
        entry_outputs(entries.drop_last(), runtime_entries).push(
            OutputAssetView::EntryChunk {
                path: entries.last().rsc_chunk_path,
                entry: entries.last().original_name,
                runtime_entries,
            },
        ).push(OutputAssetView::ClientReferenceManifest { entry: entries.last().original_name })
    }
}

/// The manifests and outputs after what was assembled has been recorded in
/// them.
pub open spec fn committed(
    before: Manifests,
    assembled: AssemblyView,
    rsc_runtime_entries: Seq<EvaluatableAsset>,
) -> Manifests {
    Manifests {
        build_manifest: with_root_files(before.build_manifest, assembled.shared_paths),
        app_build_manifest: inserted(
            before.app_build_manifest,
            page_items(assembled.entries, assembled.shared_paths),
        ),
        app_paths_manifest: inserted(before.app_paths_manifest, app_path_items(assembled.entries)),
        client_reference_manifest: inserted(
            before.client_reference_manifest,
            client_reference_items(assembled.entries),
        ),
        all_chunks: before.all_chunks + chunk_outputs(assembled.shared_chunks) + entry_outputs(
            assembled.entries,
            rsc_runtime_entries,
        ),
    }
}

/// The outcome of an assembly pass: with a fault nothing is changed, else
/// all that was assembled is recorded.
pub open spec fn assembly_pass(
    before: Manifests,
    app_entries: AppEntriesView,
    graph: Map<Seq<char>, Seq<ClientReference>>,
    chunks: Map<u64, ClientReferenceChunksView>,
    shared: Seq<ChunkView>,
    roots: Roots,
) -> (Manifests, Result<(), ErrorView>) {
    match assembly(app_entries.entries, graph, chunks, shared, roots) {
        Ok(assembled) => (committed(before, assembled, app_entries.rsc_runtime_entries), Ok(())),
        Err(e) => (before, Err(e)),
    }
}

/// Records what was assembled: the shared chunks and, for each entry, its
/// server-component chunk and its client reference manifest are added to the
/// outputs; the shared script paths become root files; each entry is listed
/// in the three manifests that go by route.
pub fn commit(
    assembled: &Assembly,
    rsc_runtime_entries: &Vec<EvaluatableAsset>,
    app_build_manifest: &mut AppBuildManifest,
    build_manifest: &mut BuildManifest,
    app_paths_manifest: &mut AppPathsManifest,
    client_reference_manifest: &mut ClientReferenceManifest,
    all_chunks: &mut Vec<OutputAsset>,
)
    ensures
        (Manifests {
            build_manifest: final(build_manifest)@,
            app_build_manifest: final(app_build_manifest)@,
            app_paths_manifest: final(app_paths_manifest)@,
            client_reference_manifest: final(client_reference_manifest)@,
            all_chunks: final(all_chunks).deep_view(),
        }) == committed(
            Manifests {
                build_manifest: old(build_manifest)@,
                app_build_manifest: old(app_build_manifest)@,
                app_paths_manifest: old(app_paths_manifest)@,
                client_reference_manifest: old(client_reference_manifest)@,
                all_chunks: old(all_chunks).deep_view(),
            },
            assembled@,
            rsc_runtime_entries@,
        ),
{
    let ghost view = assembled@;
    let ghost outputs_before = all_chunks.deep_view();

    let mut i: usize = 0;
    assert(all_chunks.deep_view() =~= outputs_before + chunk_outputs(view.shared_chunks).take(0));
    while i < assembled.shared_chunks.len()
        invariant
            i <= assembled.shared_chunks.len(),
            view == assembled@,
            all_chunks.deep_view() == outputs_before + chunk_outputs(view.shared_chunks).take(
                i as int,
            ),
        decreases assembled.shared_chunks.len() - i,
    {
        let ghost before = all_chunks.deep_view();
        let chunk = assembled.shared_chunks[i].duplicate();
        all_chunks.push(OutputAsset::Chunk(chunk));
        proof {
            let shared = chunk_outputs(view.shared_chunks);
            assert(all_chunks.deep_view() =~= before.push(shared[i as int]));
            assert(shared.take(i + 1) =~= shared.take(i as int).push(shared[i as int]));
            assert(all_chunks.deep_view() =~= outputs_before + shared.take(i + 1));
        }
        i = i + 1;
    }
    assert(chunk_outputs(view.shared_chunks).take(i as int) =~= chunk_outputs(view.shared_chunks));

    let ghost files_before = build_manifest@;
    let mut i: usize = 0;
    assert(view.shared_paths.take(0) =~= Seq::empty());
    while i < assembled.shared_paths.len()
        invariant
            i <= assembled.shared_paths.len(),
            view == assembled@,
            build_manifest@ == with_root_files(files_before, view.shared_paths.take(i as int)),
        decreases assembled.shared_paths.len() - i,
    {
        proof {
            assert(view.shared_paths.take(i + 1).drop_last() =~= view.shared_paths.take(i as int));
            assert(view.shared_paths.take(i + 1).last() == assembled.shared_paths@[i as int]@);
        }
        build_manifest.add_root_main_file(assembled.shared_paths[i].clone());
        i = i + 1;
    }
    assert(view.shared_paths.take(i as int) =~= view.shared_paths);

    let ghost pages_before = app_build_manifest@;
    let ghost paths_before = app_paths_manifest@;
    let ghost references_before = client_reference_manifest@;
    let ghost outputs_shared = all_chunks.deep_view();
    let ghost pages = page_items(view.entries, view.shared_paths);
    let ghost paths = app_path_items(view.entries);
    let ghost references = client_reference_items(view.entries);
    let mut i: usize = 0;
    proof {
        assert(pages.take(0) =~= Seq::empty());
        assert(paths.take(0) =~= Seq::empty());
        assert(references.take(0) =~= Seq::empty());
        assert(view.entries.take(0) =~= Seq::empty());
        assert(all_chunks.deep_view() =~= outputs_shared + entry_outputs(
            view.entries.take(0),
            rsc_runtime_entries@,
        ));
    }
    while i < assembled.entries.len()
        invariant
            i <= assembled.entries.len(),
            view == assembled@,
            pages == page_items(view.entries, view.shared_paths),
            paths == app_path_items(view.entries),
            references == client_reference_items(view.entries),
            app_build_manifest@ == inserted(pages_before, pages.take(i as int)),
            app_paths_manifest@ == inserted(paths_before, paths.take(i as int)),
            client_reference_manifest@ == inserted(references_before, references.take(i as int)),
            all_chunks.deep_view() == outputs_shared + entry_outputs(
                view.entries.take(i as int),
                rsc_runtime_entries@,
            ),
        decreases assembled.entries.len() - i,
    {
        let entry = &assembled.entries[i];
        proof {
            assert(view.entries[i as int] == entry@);
            assert(pages.take(i + 1).drop_last() =~= pages.take(i as int));
            assert(paths.take(i + 1).drop_last() =~= paths.take(i as int));
            assert(references.take(i + 1).drop_last() =~= references.take(i as int));
            assert(view.entries.take(i + 1).drop_last() =~= view.entries.take(i as int));
            assert(view.entries.take(i + 1).last() == entry@);
        }

        let ghost before = all_chunks.deep_view();
        let rsc_chunk = OutputAsset::EntryChunk {
            path: entry.rsc_chunk_path.duplicate(),
            entry: entry.original_name.clone(),
            runtime_entries: duplicate_assets(rsc_runtime_entries),
        };
        all_chunks.push(rsc_chunk);

        let mut entry_paths = duplicate_strings(&entry.client_paths);
        let mut shared = duplicate_strings(&assembled.shared_paths);
        let ghost own = entry_paths.deep_view();
        let ghost common = shared.deep_view();
        entry_paths.append(&mut shared);
        assert(entry_paths.deep_view() =~= own + common);
        app_build_manifest.insert(entry.original_name.clone(), entry_paths);

        app_paths_manifest.insert(entry.original_name.clone(), entry.rsc_path.clone());

        client_reference_manifest.insert(
            entry.original_name.clone(),
            duplicate_references(&entry.references),
        );

        let entry_manifest = OutputAsset::ClientReferenceManifest {
            entry: entry.original_name.clone(),
        };
        all_chunks.push(entry_manifest);
        proof {
            assert(all_chunks.deep_view() =~= before.push(rsc_chunk@).push(entry_manifest@));
            assert(all_chunks.deep_view() =~= outputs_shared + entry_outputs(
                view.entries.take(i + 1),
                rsc_runtime_entries@,
            ));
        }
        i = i + 1;
    }
    proof {
        assert(pages.take(i as int) =~= pages);
        assert(paths.take(i as int) =~= paths);
        assert(references.take(i as int) =~= references);
        assert(view.entries.take(i as int) =~= view.entries);
        assert(all_chunks.deep_view() =~= outputs_before + chunk_outputs(view.shared_chunks)
            + entry_outputs(view.entries, rsc_runtime_entries@));
    }
}

/// Computes all chunks of the app entries. The chunks are appended to
/// `all_chunks`, and what is known of them is added to the manifests.
///
/// First the chunks that all routes share: each goes to `all_chunks`, and the
/// path of each script among them, stated from the client root, becomes a
/// root file of the build manifest and is kept for every route. Then each
/// entry, in the order of discovery: its server-component chunk goes to
/// `all_chunks`; the client chunks of its client references, stated from the
/// client root and followed by the shared paths, are listed for it in the app
/// build manifest; the path of its server-component chunk, stated from the
/// directory of the app paths manifest, is listed for it in that manifest;
/// its client references with their chunks are listed in the client
/// reference manifest, which goes to `all_chunks` too.
///
/// A client reference without chunks, a client chunk outside the client root
/// and a server-component chunk outside the directory of the app paths
/// manifest are faults of the pipeline. The first fault on the way is
/// returned, and then nothing has been changed.
pub fn compute_app_entries_chunks(
    app_entries: &AppEntries,
    app_client_reference_graph: &ClientReferenceGraph,
    app_client_references_chunks: &ClientReferencesChunks,
    app_client_shared_chunks: &Vec<Chunk>,
    node_root: &FileSystemPath,
    client_relative_path: &FileSystemPath,
    app_paths_manifest_dir_path: &FileSystemPath,
    app_build_manifest: &mut AppBuildManifest,
    build_manifest: &mut BuildManifest,
    app_paths_manifest: &mut AppPathsManifest,
    client_reference_manifest: &mut ClientReferenceManifest,
    all_chunks: &mut Vec<OutputAsset>,
) -> (res: Result<(), Error>)
    ensures
        ({
            let outcome = assembly_pass(
                Manifests {
                    build_manifest: old(build_manifest)@,
                    app_build_manifest: old(app_build_manifest)@,
                    app_paths_manifest: old(app_paths_manifest)@,
                    client_reference_manifest: old(client_reference_manifest)@,
                    all_chunks: old(all_chunks).deep_view(),
                },
                app_entries@,
                app_client_reference_graph@,
                app_client_references_chunks@,
                app_client_shared_chunks.deep_view(),
                Roots {
                    node_root: node_root@,
                    client_root: client_relative_path@,
                    app_paths_manifest_dir: app_paths_manifest_dir_path@,
                },
            );
            &&& outcome.0 == (Manifests {
                build_manifest: final(build_manifest)@,
                app_build_manifest: final(app_build_manifest)@,
                app_paths_manifest: final(app_paths_manifest)@,
                client_reference_manifest: final(client_reference_manifest)@,
                all_chunks: final(all_chunks).deep_view(),
            })
            &&& match res {
                Ok(_) => outcome.1 is Ok,
                Err(e) => outcome.1 == Err::<(), ErrorView>(e@),
            }
        }),
{
    match assemble(
        &app_entries.entries,
        app_client_reference_graph,
        app_client_references_chunks,
        app_client_shared_chunks,
        node_root,
        client_relative_path,
        app_paths_manifest_dir_path,
    ) {
        Ok(assembled) => {
            commit(
                &assembled,
                &app_entries.rsc_runtime_entries,
                app_build_manifest,
                build_manifest,
                app_paths_manifest,
                client_reference_manifest,
                all_chunks,
            );
            Ok(())
        },
        Err(e) => Err(e),
    }
}

/// The root files after paths were added are the files that were there and
/// the paths that were added.
pub proof fn lemma_root_files_hold(files: Seq<Seq<char>>, paths: Seq<Seq<char>>, file: Seq<char>)
    ensures
        with_root_files(files, paths).contains(file) <==> files.contains(file) || paths.contains(
            file,
        ),
    decreases paths.len(),
{
    if paths.len() > 0 {
        let front = paths.drop_last();
        let last = paths.last();
        let before = with_root_files(files, front);
        lemma_root_files_hold(files, front, file);
        if paths.contains(file) {
            let i = choose|i: int| 0 <= i < paths.len() && paths[i] == file;
            if i < front.len() {
                assert(front[i] == file);
            }
        }
        if front.contains(file) {
            let i = choose|i: int| 0 <= i < front.len() && front[i] == file;
            assert(paths[i] == file);
        }
        assert(paths[paths.len() - 1] == last);
        if before.contains(last) {
        } else {
            let after = before.push(last);
            if before.contains(file) {
                let i = choose|i: int| 0 <= i < before.len() && before[i] == file;
                assert(after[i] == file);
            }
            assert(after[before.len() as int] == last);
            if after.contains(file) {
                let i = choose|i: int| 0 <= i < after.len() && after[i] == file;
                if i < before.len() {
                    assert(before[i] == file);
                }
            }
        }
    }
}

/// Root files among which nothing occurs twice stay so when paths are added,
/// and the files that were there keep their places.
pub proof fn lemma_root_files_stay_distinct(files: Seq<Seq<char>>, paths: Seq<Seq<char>>)
    requires
        files.no_duplicates(),
    ensures
        with_root_files(files, paths).no_duplicates(),
        files.is_prefix_of(with_root_files(files, paths)),
    decreases paths.len(),
{
    if paths.len() > 0 {
        lemma_root_files_stay_distinct(files, paths.drop_last());
    }
}

/// Adding paths that are all among the root files changes nothing.
pub proof fn lemma_root_files_absorb(files: Seq<Seq<char>>, paths: Seq<Seq<char>>)
    requires
        forall|i: int| 0 <= i < paths.len() ==> files.contains(#[trigger] paths[i]),
    ensures
        with_root_files(files, paths) == files,
    decreases paths.len(),
{
    if paths.len() > 0 {
        let front = paths.drop_last();
        assert forall|i: int| 0 <= i < front.len() implies files.contains(#[trigger] front[i]) by {
            assert(front[i] == paths[i]);
        }
        lemma_root_files_absorb(files, front);
        assert(files.contains(paths[paths.len() - 1]));
    }
}

/// The three manifests that go by route list the same routes after an
/// assembly pass: those that they listed before, and the entries of the pass.
pub proof fn lemma_routes_listed(
    before: Manifests,
    assembled: AssemblyView,
    rsc_runtime_entries: Seq<EvaluatableAsset>,
    name: Seq<char>,
)
    ensures
        ({
            let after = committed(before, assembled, rsc_runtime_entries);
            let is_entry = exists|i: int|
                0 <= i < assembled.entries.len() && (#[trigger] assembled.entries[i]).original_name
                    == name;
            &&& after.app_build_manifest.contains_key(name)
                <==> before.app_build_manifest.contains_key(name) || is_entry
            &&& after.app_paths_manifest.contains_key(name)
                <==> before.app_paths_manifest.contains_key(name) || is_entry
            &&& after.client_reference_manifest.contains_key(name)
                <==> before.client_reference_manifest.contains_key(name) || is_entry
        }),
{
    let entries = assembled.entries;
    let pages = page_items(entries, assembled.shared_paths);
    let paths = app_path_items(entries);
    let references = client_reference_items(entries);
    lemma_inserted(before.app_build_manifest, pages, name);
    lemma_inserted(before.app_paths_manifest, paths, name);
    lemma_inserted(before.client_reference_manifest, references, name);
    lemma_latest_is_some(pages, name);
    lemma_latest_is_some(paths, name);
    lemma_latest_is_some(references, name);
    let is_entry = exists|i: int|
        0 <= i < entries.len() && (#[trigger] entries[i]).original_name == name;
    if is_entry {
        let i = choose|i: int|
            0 <= i < entries.len() && (#[trigger] entries[i]).original_name == name;
        assert(pages[i].0 == name);
        assert(paths[i].0 == name);
        assert(references[i].0 == name);
    }
    if latest(pages, name) is Some {
        let i = choose|i: int| 0 <= i < pages.len() && (#[trigger] pages[i]).0 == name;
        assert(entries[i].original_name == name);
    }
    if latest(paths, name) is Some {
        let i = choose|i: int| 0 <= i < paths.len() && (#[trigger] paths[i]).0 == name;
        assert(entries[i].original_name == name);
    }
    if latest(references, name) is Some {
        let i = choose|i: int| 0 <= i < references.len() && (#[trigger] references[i]).0 == name;
        assert(entries[i].original_name == name);
    }
}

/// Every route that the app build manifest lists after an assembly pass is
/// listed by the app paths manifest too, and the other way round, provided
/// that this held before the pass.
pub proof fn lemma_manifests_list_the_same_routes(
    before: Manifests,
    app_entries: AppEntriesView,
    graph: Map<Seq<char>, Seq<ClientReference>>,
    chunks: Map<u64, ClientReferenceChunksView>,
    shared: Seq<ChunkView>,
    roots: Roots,
)
    requires
        before.app_build_manifest.dom() == before.app_paths_manifest.dom(),
    ensures
        assembly_pass(before, app_entries, graph, chunks, shared, roots).0.app_build_manifest.dom()
            == assembly_pass(
            before,
            app_entries,
            graph,
            chunks,
            shared,
            roots,
        ).0.app_paths_manifest.dom(),
{
    let after = assembly_pass(before, app_entries, graph, chunks, shared, roots).0;
    match assembly(app_entries.entries, graph, chunks, shared, roots) {
        Ok(assembled) => {
            assert forall|name: Seq<char>|
                after.app_build_manifest.dom().contains(name)
                    == after.app_paths_manifest.dom().contains(name) by {
                lemma_routes_listed(before, assembled, app_entries.rsc_runtime_entries, name);
                assert(before.app_build_manifest.dom().contains(name)
                    == before.app_paths_manifest.dom().contains(name));
            }
            assert(after.app_build_manifest.dom() =~= after.app_paths_manifest.dom());
        },
        Err(_) => {},
    }
}

/// After an assembly pass the app build manifest lists for a route first the
/// client chunks of the route itself, then the shared paths, which are the
/// same for every route; and the other two manifests list what was assembled
/// for the route. This holds of each entry whose name no later entry bears.
pub proof fn lemma_own_chunks_precede_shared(
    before: Manifests,
    assembled: AssemblyView,
    rsc_runtime_entries: Seq<EvaluatableAsset>,
    i: int,
)
    requires
        0 <= i < assembled.entries.len(),
        forall|j: int|
            i < j < assembled.entries.len() ==> (#[trigger] assembled.entries[j]).original_name
                != assembled.entries[i].original_name,
    ensures
        ({
            let after = committed(before, assembled, rsc_runtime_entries);
            let entry = assembled.entries[i];
            &&& after.app_build_manifest.contains_key(entry.original_name)
            &&& after.app_build_manifest[entry.original_name] == entry.client_paths
                + assembled.shared_paths
            &&& after.app_paths_manifest.contains_key(entry.original_name)
            &&& after.app_paths_manifest[entry.original_name] == entry.rsc_path
            &&& after.client_reference_manifest.contains_key(entry.original_name)
            &&& after.client_reference_manifest[entry.original_name] == entry.references
        }),
{
    let entries = assembled.entries;
    let name = entries[i].original_name;
    let pages = page_items(entries, assembled.shared_paths);
    let paths = app_path_items(entries);
    let references = client_reference_items(entries);
    assert forall|j: int| i < j < pages.len() implies (#[trigger] pages[j]).0 != pages[i].0 by {
        assert(entries[j].original_name != name);
    }
    assert forall|j: int| i < j < paths.len() implies (#[trigger] paths[j]).0 != paths[i].0 by {
        assert(entries[j].original_name != name);
    }
    assert forall|j: int| i < j < references.len() implies (#[trigger] references[j]).0
        != references[i].0 by {
        assert(entries[j].original_name != name);
    }
    lemma_latest_of_unshadowed(pages, i);
    lemma_latest_of_unshadowed(paths, i);
    lemma_latest_of_unshadowed(references, i);
    lemma_inserted(before.app_build_manifest, pages, name);
    lemma_inserted(before.app_paths_manifest, paths, name);
    lemma_inserted(before.client_reference_manifest, references, name);
}

/// Where an assembly pass meets no fault, every chunk lies below the root it
/// is stated from: each shared script and each client chunk of an entry
/// below the client root, and the server-component chunk of each entry below
/// the server's root and below the directory of the app paths manifest. The
/// paths that the manifests get are the paths that lead there from those
/// roots.
pub proof fn lemma_assembled_chunks_are_nested(
    entries: Seq<AppEntryView>,
    graph: Map<Seq<char>, Seq<ClientReference>>,
    chunks: Map<u64, ClientReferenceChunksView>,
    shared: Seq<ChunkView>,
    roots: Roots,
)
    requires
        assembly(entries, graph, chunks, shared, roots) is Ok,
    ensures
        forall|i: int|
            0 <= i < shared.len() && is_script_path((#[trigger] shared[i]).path.path) ==> is_inside(
                roots.client_root,
                shared[i].path,
            ),
        ({
            let assembled = assembly(entries, graph, chunks, shared, roots)->Ok_0;
            &&& assembled.entries.len() == entries.len()
            &&& forall|e: int|
                0 <= e < entries.len() ==> {
                    let entry = #[trigger] assembled.entries[e];
                    let own = client_chunks_of(entry.references);
                    &&& entry.original_name == entries[e].original_name
                    &&& entry.rsc_chunk_path == rsc_chunk_path(
                        roots.node_root,
                        entry.original_name,
                    )
                    &&& is_inside(roots.node_root, entry.rsc_chunk_path)
                    &&& path_to(roots.app_paths_manifest_dir, entry.rsc_chunk_path) == Some(
                        entry.rsc_path,
                    )
                    &&& entry.client_paths.len() == own.len()
                    &&& forall|k: int|
                        0 <= k < own.len() ==> path_to(roots.client_root, (#[trigger] own[k]).path)
                            == Some(entry.client_paths[k])
                }
        }),
{
    let assembled = assembly(entries, graph, chunks, shared, roots)->Ok_0;
    assert(shared_paths(shared, roots.client_root) is Ok);
    assert(entry_assemblies(entries, graph, chunks, roots) is Ok);
    assert forall|i: int|
        0 <= i < shared.len() && is_script_path((#[trigger] shared[i]).path.path) implies is_inside(
        roots.client_root,
        shared[i].path,
    ) by {
        if !is_inside(roots.client_root, shared[i].path) {
            assert(is_stray_script(shared[i], roots.client_root));
        }
    }
    assert forall|e: int| 0 <= e < entries.len() implies {
        let entry = #[trigger] assembled.entries[e];
        let own = client_chunks_of(entry.references);
        &&& entry.original_name == entries[e].original_name
        &&& entry.rsc_chunk_path == rsc_chunk_path(roots.node_root, entry.original_name)
        &&& is_inside(roots.node_root, entry.rsc_chunk_path)
        &&& path_to(roots.app_paths_manifest_dir, entry.rsc_chunk_path) == Some(entry.rsc_path)
        &&& entry.client_paths.len() == own.len()
        &&& forall|k: int|
            0 <= k < own.len() ==> path_to(roots.client_root, (#[trigger] own[k]).path) == Some(
                entry.client_paths[k],
            )
    } by {
        let name = entries[e].original_name;
        assert(entry_assembly(name, graph, chunks, roots) is Ok);
        let entry = assembled.entries[e];
        assert(entry == entry_assembly(name, graph, chunks, roots)->Ok_0);
        let own = client_chunks_of(entry.references);
        assert(relative_paths(own, roots.client_root) is Ok);
        assert forall|k: int| 0 <= k < own.len() implies path_to(
            roots.client_root,
            (#[trigger] own[k]).path,
        ) == Some(entry.client_paths[k]) by {
            assert(is_inside(roots.client_root, own[k].path));
        }
        reveal_strlit("server/app/");
        assert(rsc_chunk_name(name).len() > 0);
        lemma_join_then_path_to(roots.node_root, rsc_chunk_name(name));
    }
}

/// Where the directory of the app paths manifest is the server's root, the
/// path listed for a route is `server/app/`, the name of the route and
/// `.js`: it names a script.
pub proof fn lemma_rsc_path_is_named_by_the_route(
    name: Seq<char>,
    graph: Map<Seq<char>, Seq<ClientReference>>,
    chunks: Map<u64, ClientReferenceChunksView>,
    roots: Roots,
)
    requires
        roots.app_paths_manifest_dir == roots.node_root,
        entry_assembly(name, graph, chunks, roots) is Ok,
    ensures
        entry_assembly(name, graph, chunks, roots)->Ok_0.rsc_path == "server/app/"@ + name
            + ".js"@,
        is_script_path(entry_assembly(name, graph, chunks, roots)->Ok_0.rsc_path),
{
    let rsc_path = rsc_chunk_name(name);
    reveal_strlit("server/app/");
    reveal_strlit(".js");
    assert(rsc_path.len() > 0);
    lemma_join_then_path_to(roots.node_root, rsc_path);
    lemma_script_path_ends_in_dot_js(rsc_path);
    assert(rsc_path.subrange(rsc_path.len() - 3, rsc_path.len() as int) =~= seq!['.', 'j', 's']);
}

/// Every failure of an assembly pass is a fault of the pipeline, never a
/// mistake of the project.
pub proof fn lemma_assembly_fails_by_fault_only(
    entries: Seq<AppEntryView>,
    graph: Map<Seq<char>, Seq<ClientReference>>,
    chunks: Map<u64, ClientReferenceChunksView>,
    shared: Seq<ChunkView>,
    roots: Roots,
)
    requires
        assembly(entries, graph, chunks, shared, roots) is Err,
    ensures
        class_of(assembly(entries, graph, chunks, shared, roots)->Err_0)
            == ErrorClass::InternalFault,
{
    if shared_paths(shared, roots.client_root) is Ok {
        let faulty = choose|i: int|
            0 <= i < entries.len() && entry_assembly(
                (#[trigger] entries[i]).original_name,
                graph,
                chunks,
                roots,
            ) is Err;
        lemma_first_faulty_exists(entries, graph, chunks, roots, faulty);
        let first = choose|i: int| is_first_faulty(entries, graph, chunks, roots, i);
        assert(entry_assembly(entries[first].original_name, graph, chunks, roots) is Err);
    }
}

/// Where the assembly of some entry meets a fault, there is a first entry
/// whose assembly does.
proof fn lemma_first_faulty_exists(
    entries: Seq<AppEntryView>,
    graph: Map<Seq<char>, Seq<ClientReference>>,
    chunks: Map<u64, ClientReferenceChunksView>,
    roots: Roots,
    i: int,
)
    requires
        0 <= i < entries.len(),
        entry_assembly(entries[i].original_name, graph, chunks, roots) is Err,
    ensures
        exists|k: int| is_first_faulty(entries, graph, chunks, roots, k),
    decreases i,
{
    if exists|j: int|
        0 <= j < i && entry_assembly((#[trigger] entries[j]).original_name, graph, chunks, roots)
            is Err {
        let j = choose|j: int|
            0 <= j < i && entry_assembly(
                (#[trigger] entries[j]).original_name,
                graph,
                chunks,
                roots,
            ) is Err;
        lemma_first_faulty_exists(entries, graph, chunks, roots, j);
    } else {
        assert(is_first_faulty(entries, graph, chunks, roots, i));
    }
}

/// A shared script outside the client root makes the assembly pass fail.
pub proof fn lemma_stray_shared_script_is_a_fault(
    entries: Seq<AppEntryView>,
    graph: Map<Seq<char>, Seq<ClientReference>>,
    chunks: Map<u64, ClientReferenceChunksView>,
    shared: Seq<ChunkView>,
    roots: Roots,
    i: int,
)
    requires
        0 <= i < shared.len(),
        is_script_path(shared[i].path.path),
        !is_inside(roots.client_root, shared[i].path),
    ensures
        assembly(entries, graph, chunks, shared, roots) is Err,
{
    assert(is_stray_script(shared[i], roots.client_root));
}

/// A client chunk of an entry outside the client root, and an entry whose
/// server-component chunk is outside the directory of the app paths
/// manifest, make the assembly pass fail.
pub proof fn lemma_stray_entry_chunk_is_a_fault(
    entries: Seq<AppEntryView>,
    graph: Map<Seq<char>, Seq<ClientReference>>,
    chunks: Map<u64, ClientReferenceChunksView>,
    shared: Seq<ChunkView>,
    roots: Roots,
    e: int,
)
    requires
        0 <= e < entries.len(),
        ({
            let name = entries[e].original_name;
            match referenced_chunks(references_of(graph, name), chunks) {
                Err(_) => true,
                Ok(references) => {
                    ||| exists|k: int|
                        0 <= k < client_chunks_of(references).len() && !is_inside(
                            roots.client_root,
                            (#[trigger] client_chunks_of(references)[k]).path,
                        )
                    ||| !is_inside(
                        roots.app_paths_manifest_dir,
                        rsc_chunk_path(roots.node_root, name),
                    )
                },
            }
        }),
    ensures
        assembly(entries, graph, chunks, shared, roots) is Err,
{
    let name = entries[e].original_name;
    assert(entry_assembly(name, graph, chunks, roots) is Err);
    assert(entry_assembly((#[trigger] entries[e]).original_name, graph, chunks, roots) is Err);
}

/// The outcome of an assembly pass depends on what it is given alone: two
/// passes that start from the same manifests with the same entries, graph,
/// chunks and roots end with the same manifests, the same outputs in the
/// same order, and the same verdict.
pub proof fn lemma_assembly_pass_is_deterministic(
    before: Manifests,
    other_before: Manifests,
    app_entries: AppEntriesView,
    other_app_entries: AppEntriesView,
    graph: Map<Seq<char>, Seq<ClientReference>>,
    other_graph: Map<Seq<char>, Seq<ClientReference>>,
    chunks: Map<u64, ClientReferenceChunksView>,
    other_chunks: Map<u64, ClientReferenceChunksView>,
    shared: Seq<ChunkView>,
    other_shared: Seq<ChunkView>,
    roots: Roots,
)
    requires
        before.build_manifest =~= other_before.build_manifest,
        before.app_build_manifest =~= other_before.app_build_manifest,
        before.app_paths_manifest =~= other_before.app_paths_manifest,
        before.client_reference_manifest =~= other_before.client_reference_manifest,
        before.all_chunks =~= other_before.all_chunks,
        app_entries.entries =~= other_app_entries.entries,
        app_entries.rsc_runtime_entries =~= other_app_entries.rsc_runtime_entries,
        graph =~= other_graph,
        chunks =~= other_chunks,
        shared =~= other_shared,
    ensures
        assembly_pass(before, app_entries, graph, chunks, shared, roots) == assembly_pass(
            other_before,
            other_app_entries,
            other_graph,
            other_chunks,
            other_shared,
            roots,
        ),
{
}

/// A second recording of what was assembled changes none of the four
/// manifests; only the outputs are listed once more.
pub proof fn lemma_second_commit_changes_no_manifest(
    before: Manifests,
    assembled: AssemblyView,
    rsc_runtime_entries: Seq<EvaluatableAsset>,
)
    ensures
        ({
            let once = committed(before, assembled, rsc_runtime_entries);
            let twice = committed(once, assembled, rsc_runtime_entries);
            &&& twice.build_manifest == once.build_manifest
            &&& twice.app_build_manifest == once.app_build_manifest
            &&& twice.app_paths_manifest == once.app_paths_manifest
            &&& twice.client_reference_manifest == once.client_reference_manifest
            &&& twice.all_chunks == once.all_chunks + chunk_outputs(assembled.shared_chunks)
                + entry_outputs(assembled.entries, rsc_runtime_entries)
        }),
{
    let once = committed(before, assembled, rsc_runtime_entries);
    let paths = assembled.shared_paths;
    assert forall|i: int| 0 <= i < paths.len() implies once.build_manifest.contains(
        #[trigger] paths[i],
    ) by {
        lemma_root_files_hold(before.build_manifest, paths, paths[i]);
    }
    lemma_root_files_absorb(once.build_manifest, paths);
    lemma_inserted_twice(before.app_build_manifest, page_items(assembled.entries, paths));
    lemma_inserted_twice(before.app_paths_manifest, app_path_items(assembled.entries));
    lemma_inserted_twice(
        before.client_reference_manifest,
        client_reference_items(assembled.entries),
    );
}

} // verus!
