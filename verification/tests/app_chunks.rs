use next_app_entries::app_chunks::{commit, compute_app_entries_chunks};
use next_app_entries::app_entries::{
    get_app_entries, AppDirectory, AppEntries, AppEntry, Entrypoint, RscEntry, RuntimeReferences,
};
use next_app_entries::assembly::{
    assemble, assemble_entry, collect_client_chunks, collect_reference_chunks,
    relativize_chunks, rsc_chunk_output_path, shared_chunk_paths,
};
use next_app_entries::chunk::{
    Chunk, ClientReferenceChunks, ClientReferenceGraph, ClientReferencesChunks, OutputAsset,
};
use next_app_entries::error::Error;
use next_app_entries::fs_path::FileSystemPath;
use next_app_entries::context::ContextKind;
use next_app_entries::handle::{
    ClientReference, CompileTimeInfo, Config, LoaderTree, Module, Source,
};
use next_app_entries::manifest::{
    AppBuildManifest, AppPathsManifest, BuildManifest, ClientReferenceManifest,
};
use next_app_entries::runtime_entry::{EvaluatableAsset, Resolver, RuntimeEntries};

fn node_root() -> FileSystemPath {
    FileSystemPath::new(1, "out")
}

fn client_root() -> FileSystemPath {
    FileSystemPath::new(1, "out/client")
}

fn chunk(id: u64, path: &str) -> Chunk {
    Chunk { id, path: FileSystemPath::new(1, path) }
}

fn entry(name: &str) -> AppEntry {
    AppEntry {
        original_name: name.to_string(),
        rsc_entry: RscEntry::Page {
            loader_tree: LoaderTree { id: 1 },
            app_dir: FileSystemPath::new(1, "project/app"),
        },
    }
}

fn app_entries(names: &[&str]) -> AppEntries {
    AppEntries {
        entries: names.iter().map(|name| entry(name)).collect(),
        rsc_runtime_entries: vec![],
        client_runtime_entries: vec![],
    }
}

fn strings(items: &[&str]) -> Vec<String> {
    items.iter().map(|item| item.to_string()).collect()
}

struct Build {
    entries: AppEntries,
    graph: ClientReferenceGraph,
    chunks: ClientReferencesChunks,
    shared: Vec<Chunk>,
    node_root: FileSystemPath,
    client_root: FileSystemPath,
    manifest_dir: FileSystemPath,
}

struct Output {
    app_build: AppBuildManifest,
    build: BuildManifest,
    app_paths: AppPathsManifest,
    client_references: ClientReferenceManifest,
    all_chunks: Vec<OutputAsset>,
}

impl Output {
    fn new() -> Output {
        Output {
            app_build: AppBuildManifest::new(),
            build: BuildManifest::new(),
            app_paths: AppPathsManifest::new(),
            client_references: ClientReferenceManifest::new(),
            all_chunks: vec![],
        }
    }
}

impl Build {
    fn new(names: &[&str]) -> Build {
        Build {
            entries: app_entries(names),
            graph: ClientReferenceGraph::new(),
            chunks: ClientReferencesChunks::new(),
            shared: vec![],
            node_root: node_root(),
            client_root: client_root(),
            manifest_dir: node_root(),
        }
    }

    fn reference(&mut self, id: u64, client: Vec<Chunk>, ssr: Vec<Chunk>) {
        self.chunks.insert(
            ClientReference { id },
            ClientReferenceChunks { client_chunks: client, ssr_chunks: ssr },
        );
    }

    fn uses(&mut self, name: &str, references: &[u64]) {
        self.graph.insert(
            name.to_string(),
            references.iter().map(|id| ClientReference { id: *id }).collect(),
        );
    }

    fn run(&self, output: &mut Output) -> Result<(), Error> {
        compute_app_entries_chunks(
            &self.entries,
            &self.graph,
            &self.chunks,
            &self.shared,
            &self.node_root,
            &self.client_root,
            &self.manifest_dir,
            &mut output.app_build,
            &mut output.build,
            &mut output.app_paths,
            &mut output.client_references,
            &mut output.all_chunks,
        )
    }
}

fn typical() -> Build {
    let mut build = Build::new(&["/", "/about", "/api"]);
    build.shared = vec![
        chunk(1, "out/client/chunks/runtime.js"),
        chunk(2, "out/client/chunks/runtime.js.map"),
        chunk(3, "out/client/chunks/main.js"),
        chunk(4, "out/client/chunks/app.css"),
    ];
    build.reference(
        10,
        vec![chunk(100, "out/client/chunks/button.js"), chunk(101, "out/client/chunks/button.css")],
        vec![chunk(102, "out/server/chunks/ssr/button.js")],
    );
    build.reference(
        11,
        vec![chunk(110, "out/client/chunks/counter.js")],
        vec![chunk(111, "out/server/chunks/ssr/counter.js")],
    );
    build.reference(12, vec![], vec![]);
    build.uses("/", &[10, 11]);
    build.uses("/about", &[11, 12, 10]);
    build
}

#[test]
fn the_server_component_chunk_is_named_by_its_route() {
    assert_eq!(
        rsc_chunk_output_path(&node_root(), &"/about".to_string()),
        FileSystemPath::new(1, "out/server/app//about.js")
    );
    assert_eq!(
        rsc_chunk_output_path(&FileSystemPath::new(2, ""), &"blog/post".to_string()),
        FileSystemPath::new(2, "server/app/blog/post.js")
    );
    assert_eq!(
        rsc_chunk_output_path(&node_root(), &String::new()),
        FileSystemPath::new(1, "out/server/app/.js")
    );
}

#[test]
fn shared_paths_are_those_of_the_scripts() {
    assert_eq!(
        shared_chunk_paths(&typical().shared, &client_root()),
        Ok(strings(&["chunks/runtime.js", "chunks/main.js"]))
    );
    assert_eq!(shared_chunk_paths(&vec![], &client_root()), Ok(vec![]));
}

#[test]
fn a_shared_chunk_that_is_no_script_may_lie_anywhere() {
    let shared = vec![chunk(1, "elsewhere/app.css"), chunk(2, "out/client/main.js")];
    assert_eq!(shared_chunk_paths(&shared, &client_root()), Ok(strings(&["main.js"])));
}

#[test]
fn a_shared_script_outside_the_client_root_is_a_fault() {
    let shared = vec![
        chunk(1, "out/client/main.js"),
        chunk(2, "elsewhere/first.js"),
        chunk(3, "elsewhere/second.js"),
    ];
    let fault = shared_chunk_paths(&shared, &client_root()).unwrap_err();
    assert_eq!(
        fault,
        Error::OutsideClientRoot { path: FileSystemPath::new(1, "elsewhere/first.js") }
    );
    assert!(fault.is_internal_fault());
}

#[test]
fn relativize_states_every_chunk_from_the_client_root() {
    let chunks = vec![chunk(1, "out/client/a.js"), chunk(2, "out/client/css/b.css")];
    assert_eq!(relativize_chunks(&chunks, &client_root()), Ok(strings(&["a.js", "css/b.css"])));
    assert_eq!(relativize_chunks(&vec![], &client_root()), Ok(vec![]));
}

#[test]
fn relativize_reports_the_first_chunk_outside_the_client_root() {
    let chunks = vec![
        chunk(1, "out/client/a.js"),
        chunk(2, "out/server/b.css"),
        chunk(3, "out/server/c.js"),
    ];
    assert_eq!(
        relativize_chunks(&chunks, &client_root()),
        Err(Error::OutsideClientRoot { path: FileSystemPath::new(1, "out/server/b.css") })
    );
    let other_fs = vec![Chunk { id: 1, path: FileSystemPath::new(9, "out/client/a.js") }];
    assert_eq!(
        relativize_chunks(&other_fs, &client_root()),
        Err(Error::OutsideClientRoot { path: FileSystemPath::new(9, "out/client/a.js") })
    );
}

#[test]
fn reference_chunks_are_looked_up_in_order() {
    let build = typical();
    let references = vec![ClientReference { id: 11 }, ClientReference { id: 10 }];
    let found = collect_reference_chunks(&references, &build.chunks).unwrap();
    assert_eq!(found.len(), 2);
    assert_eq!(found[0].reference, ClientReference { id: 11 });
    assert_eq!(found[0].chunks.client_chunks, vec![chunk(110, "out/client/chunks/counter.js")]);
    assert_eq!(found[1].reference, ClientReference { id: 10 });
    assert_eq!(found[1].chunks.ssr_chunks, vec![chunk(102, "out/server/chunks/ssr/button.js")]);
    assert_eq!(
        collect_client_chunks(&found),
        vec![
            chunk(110, "out/client/chunks/counter.js"),
            chunk(100, "out/client/chunks/button.js"),
            chunk(101, "out/client/chunks/button.css"),
        ]
    );
}

#[test]
fn a_reference_without_chunks_is_a_fault() {
    let build = typical();
    let references = vec![
        ClientReference { id: 10 },
        ClientReference { id: 98 },
        ClientReference { id: 99 },
    ];
    let fault = collect_reference_chunks(&references, &build.chunks).unwrap_err();
    assert_eq!(fault, Error::MissingClientReferenceChunks { reference: ClientReference { id: 98 } });
    assert!(fault.is_internal_fault());
}

#[test]
fn an_entry_is_assembled_from_its_references() {
    let build = typical();
    let assembled = assemble_entry(
        &entry("/about"),
        &build.graph,
        &build.chunks,
        &build.node_root,
        &build.client_root,
        &build.manifest_dir,
    )
    .unwrap();
    assert_eq!(assembled.original_name, "/about");
    assert_eq!(assembled.rsc_chunk_path, FileSystemPath::new(1, "out/server/app//about.js"));
    assert_eq!(assembled.rsc_path, "server/app//about.js");
    assert_eq!(
        assembled.client_paths,
        strings(&["chunks/counter.js", "chunks/button.js", "chunks/button.css"])
    );
    assert_eq!(
        assembled.references.iter().map(|r| r.reference.id).collect::<Vec<_>>(),
        vec![11, 12, 10]
    );
}

#[test]
fn an_entry_that_the_graph_does_not_list_has_no_references() {
    let build = typical();
    let assembled = assemble_entry(
        &entry("/api"),
        &build.graph,
        &build.chunks,
        &build.node_root,
        &build.client_root,
        &build.manifest_dir,
    )
    .unwrap();
    assert_eq!(assembled.client_paths, Vec::<String>::new());
    assert_eq!(assembled.references, vec![]);
    assert_eq!(assembled.rsc_path, "server/app//api.js");
}

#[test]
fn a_full_pass_fills_all_manifests() {
    let build = typical();
    let mut out = Output::new();
    assert_eq!(build.run(&mut out), Ok(()));

    assert_eq!(out.build.root_main_files, strings(&["chunks/runtime.js", "chunks/main.js"]));

    assert_eq!(out.app_build.pages.len(), 3);
    assert_eq!(
        out.app_build.pages.get("/"),
        Some(&strings(&[
            "chunks/button.js",
            "chunks/button.css",
            "chunks/counter.js",
            "chunks/runtime.js",
            "chunks/main.js",
        ]))
    );
    assert_eq!(
        out.app_build.pages.get("/about"),
        Some(&strings(&[
            "chunks/counter.js",
            "chunks/button.js",
            "chunks/button.css",
            "chunks/runtime.js",
            "chunks/main.js",
        ]))
    );
    assert_eq!(
        out.app_build.pages.get("/api"),
        Some(&strings(&["chunks/runtime.js", "chunks/main.js"]))
    );

    assert_eq!(out.app_paths.pages.len(), 3);
    assert_eq!(out.app_paths.pages.get("/"), Some(&"server/app//.js".to_string()));
    assert_eq!(out.app_paths.pages.get("/about"), Some(&"server/app//about.js".to_string()));
    assert_eq!(out.app_paths.pages.get("/api"), Some(&"server/app//api.js".to_string()));

    assert_eq!(out.client_references.entries.len(), 3);
    let about = out.client_references.entries.get("/about").unwrap();
    assert_eq!(about.len(), 3);
    assert_eq!(about[0].reference, ClientReference { id: 11 });
    assert_eq!(about[0].chunks.client_chunks, vec![chunk(110, "out/client/chunks/counter.js")]);
    assert_eq!(about[0].chunks.ssr_chunks, vec![chunk(111, "out/server/chunks/ssr/counter.js")]);
    assert_eq!(about[1].chunks.client_chunks, vec![]);
    assert_eq!(out.client_references.entries.get("/api"), Some(&vec![]));
}

#[test]
fn outputs_are_the_shared_chunks_then_two_for_each_entry() {
    let mut build = typical();
    let prelude = vec![
        EvaluatableAsset::Module(Module { id: 900 }),
        EvaluatableAsset::Source(Source { id: 901 }, ContextKind::ServerComponent),
    ];
    build.entries.rsc_runtime_entries = prelude.clone();
    build.entries.client_runtime_entries = vec![EvaluatableAsset::Module(Module { id: 902 })];
    let mut out = Output::new();
    out.all_chunks.push(OutputAsset::Chunk(chunk(0, "out/earlier.js")));
    build.run(&mut out).unwrap();
    let entry_outputs = |name: &str, path: &str| {
        vec![
            OutputAsset::EntryChunk {
                path: FileSystemPath::new(1, path),
                entry: name.to_string(),
                runtime_entries: prelude.clone(),
            },
            OutputAsset::ClientReferenceManifest { entry: name.to_string() },
        ]
    };
    let mut expected = vec![OutputAsset::Chunk(chunk(0, "out/earlier.js"))];
    expected.extend(build.shared.iter().cloned().map(OutputAsset::Chunk));
    expected.extend(entry_outputs("/", "out/server/app//.js"));
    expected.extend(entry_outputs("/about", "out/server/app//about.js"));
    expected.extend(entry_outputs("/api", "out/server/app//api.js"));
    assert_eq!(out.all_chunks, expected);
}

#[test]
fn both_route_manifests_list_the_same_routes() {
    let build = typical();
    let mut out = Output::new();
    build.run(&mut out).unwrap();
    assert_eq!(out.app_build.pages.len(), out.app_paths.pages.len());
    for name in ["/", "/about", "/api", "/missing", ""] {
        assert_eq!(out.app_build.pages.contains_key(name), out.app_paths.pages.contains_key(name));
        assert_eq!(
            out.app_build.pages.contains_key(name),
            out.client_references.entries.contains_key(name)
        );
    }
    assert!(out.app_build.pages.contains_key("/about"));
    assert!(!out.app_build.pages.contains_key("/missing"));
}

#[test]
fn every_route_ends_with_the_same_shared_paths() {
    let build = typical();
    let mut out = Output::new();
    build.run(&mut out).unwrap();
    let shared = shared_chunk_paths(&build.shared, &build.client_root).unwrap();
    assert_eq!(shared.len(), 2);
    for (name, own) in [("/", 3), ("/about", 3), ("/api", 0)] {
        let listed = out.app_build.pages.get(name).unwrap();
        assert_eq!(listed.len(), own + shared.len());
        assert_eq!(listed[own..], shared[..]);
    }
}

#[test]
fn a_chunk_that_is_both_shared_and_of_a_route_is_listed_twice() {
    let mut build = Build::new(&["/"]);
    build.shared = vec![chunk(1, "out/client/both.js")];
    build.reference(1, vec![chunk(1, "out/client/both.js")], vec![]);
    build.uses("/", &[1]);
    let mut out = Output::new();
    build.run(&mut out).unwrap();
    assert_eq!(out.app_build.pages.get("/"), Some(&strings(&["both.js", "both.js"])));
}

#[test]
fn root_files_are_listed_once_in_the_order_found() {
    let mut build = Build::new(&[]);
    build.shared = vec![
        chunk(1, "out/client/b.js"),
        chunk(2, "out/client/a.js"),
        chunk(3, "out/client/b.js"),
    ];
    let mut out = Output::new();
    out.build.root_main_files = strings(&["polyfills.js", "a.js"]);
    build.run(&mut out).unwrap();
    assert_eq!(out.build.root_main_files, strings(&["polyfills.js", "a.js", "b.js"]));
}

#[test]
fn add_root_main_file_skips_what_is_listed() {
    let mut manifest = BuildManifest::new();
    manifest.add_root_main_file("a.js".to_string());
    manifest.add_root_main_file("b.js".to_string());
    manifest.add_root_main_file("a.js".to_string());
    assert_eq!(manifest.root_main_files, strings(&["a.js", "b.js"]));
    assert!(manifest.contains(&"b.js".to_string()));
    assert!(!manifest.contains(&"c.js".to_string()));
}

#[test]
fn a_stray_shared_script_fails_the_pass_and_changes_nothing() {
    let mut build = typical();
    build.shared.push(chunk(5, "out/server/stray.js"));
    let mut out = Output::new();
    out.all_chunks.push(OutputAsset::Chunk(chunk(0, "out/earlier.js")));
    out.build.add_root_main_file("polyfills.js".to_string());
    out.app_build.insert("/old".to_string(), strings(&["old.js"]));
    out.app_paths.insert("/old".to_string(), "server/app/old.js".to_string());
    let fault = build.run(&mut out).unwrap_err();
    assert_eq!(
        fault,
        Error::OutsideClientRoot { path: FileSystemPath::new(1, "out/server/stray.js") }
    );
    assert!(fault.is_internal_fault());
    assert_eq!(out.all_chunks, vec![OutputAsset::Chunk(chunk(0, "out/earlier.js"))]);
    assert_eq!(out.build.root_main_files, strings(&["polyfills.js"]));
    assert_eq!(out.app_build.pages.len(), 1);
    assert_eq!(out.app_build.pages.get("/old"), Some(&strings(&["old.js"])));
    assert_eq!(out.app_paths.pages.len(), 1);
    assert_eq!(out.client_references.entries.len(), 0);
}

#[test]
fn a_stray_client_chunk_of_a_later_entry_fails_the_pass_and_changes_nothing() {
    let mut build = typical();
    build.reference(13, vec![chunk(130, "out/server/not-client.js")], vec![]);
    build.uses("/api", &[10, 13]);
    let mut out = Output::new();
    assert_eq!(
        build.run(&mut out),
        Err(Error::OutsideClientRoot { path: FileSystemPath::new(1, "out/server/not-client.js") })
    );
    assert_eq!(out.all_chunks, vec![]);
    assert_eq!(out.build.root_main_files, Vec::<String>::new());
    assert_eq!(out.app_build.pages.len(), 0);
    assert_eq!(out.app_paths.pages.len(), 0);
    assert_eq!(out.client_references.entries.len(), 0);
}

#[test]
fn a_missing_reference_is_found_before_a_stray_chunk_of_the_same_entry() {
    let mut build = Build::new(&["/"]);
    build.reference(1, vec![chunk(1, "elsewhere/a.js")], vec![]);
    build.uses("/", &[1, 2]);
    let mut out = Output::new();
    assert_eq!(
        build.run(&mut out),
        Err(Error::MissingClientReferenceChunks { reference: ClientReference { id: 2 } })
    );
}

#[test]
fn the_fault_of_the_first_entry_that_has_one_is_reported() {
    let mut build = Build::new(&["/a", "/b", "/c"]);
    build.reference(1, vec![chunk(1, "elsewhere/b.js")], vec![]);
    build.uses("/b", &[1]);
    build.uses("/c", &[404]);
    let mut out = Output::new();
    assert_eq!(
        build.run(&mut out),
        Err(Error::OutsideClientRoot { path: FileSystemPath::new(1, "elsewhere/b.js") })
    );
}

#[test]
fn a_server_component_chunk_outside_the_manifest_directory_is_a_fault() {
    let mut build = typical();
    build.manifest_dir = FileSystemPath::new(1, "out/server/pages");
    let mut out = Output::new();
    let fault = build.run(&mut out).unwrap_err();
    assert_eq!(
        fault,
        Error::OutsideAppPathsManifestDir { path: FileSystemPath::new(1, "out/server/app//.js") }
    );
    assert!(fault.is_internal_fault());
    assert_eq!(out.app_paths.pages.len(), 0);
    assert_eq!(out.all_chunks, vec![]);
}

#[test]
fn paths_are_stated_from_the_manifest_directory() {
    let mut build = Build::new(&["/about"]);
    build.manifest_dir = FileSystemPath::new(1, "out/server");
    let mut out = Output::new();
    build.run(&mut out).unwrap();
    assert_eq!(out.app_paths.pages.get("/about"), Some(&"app//about.js".to_string()));
}

#[test]
fn two_passes_over_the_same_input_give_the_same() {
    let build = typical();
    let mut first = Output::new();
    let mut second = Output::new();
    assert_eq!(build.run(&mut first), build.run(&mut second));
    assert_eq!(first.all_chunks, second.all_chunks);
    assert_eq!(first.build.root_main_files, second.build.root_main_files);
    for name in ["/", "/about", "/api"] {
        assert_eq!(first.app_build.pages.get(name), second.app_build.pages.get(name));
        assert_eq!(first.app_paths.pages.get(name), second.app_paths.pages.get(name));
        assert_eq!(
            first.client_references.entries.get(name),
            second.client_references.entries.get(name)
        );
    }
}

#[test]
fn a_second_pass_over_the_same_manifests_changes_none_of_them() {
    let build = typical();
    let mut out = Output::new();
    build.run(&mut out).unwrap();
    let files = out.build.root_main_files.clone();
    let home = out.app_build.pages.get("/").cloned();
    let outputs = out.all_chunks.len();
    build.run(&mut out).unwrap();
    assert_eq!(out.build.root_main_files, files);
    assert_eq!(out.app_build.pages.len(), 3);
    assert_eq!(out.app_build.pages.get("/").cloned(), home);
    assert_eq!(out.app_paths.pages.len(), 3);
    assert_eq!(out.client_references.entries.len(), 3);
    assert_eq!(out.all_chunks.len(), 2 * outputs);
}

#[test]
fn of_two_entries_with_one_name_the_later_is_listed() {
    let mut build = Build::new(&["/a", "/a"]);
    build.reference(1, vec![chunk(1, "out/client/a.js")], vec![]);
    build.uses("/a", &[1]);
    let mut out = Output::new();
    build.run(&mut out).unwrap();
    assert_eq!(out.app_build.pages.len(), 1);
    assert_eq!(out.app_build.pages.get("/a"), Some(&strings(&["a.js"])));
    assert_eq!(out.all_chunks.len(), 4);
}

#[test]
fn nothing_to_assemble_changes_nothing() {
    let build = Build::new(&[]);
    let mut out = Output::new();
    assert_eq!(build.run(&mut out), Ok(()));
    assert_eq!(out.all_chunks, vec![]);
    assert_eq!(out.build.root_main_files, Vec::<String>::new());
    assert_eq!(out.app_build.pages.len(), 0);
}

#[test]
fn assemble_then_commit_is_the_pass() {
    let build = typical();
    let assembled = assemble(
        &build.entries.entries,
        &build.graph,
        &build.chunks,
        &build.shared,
        &build.node_root,
        &build.client_root,
        &build.manifest_dir,
    )
    .unwrap();
    assert_eq!(assembled.shared_chunks, build.shared);
    assert_eq!(assembled.shared_paths, strings(&["chunks/runtime.js", "chunks/main.js"]));
    assert_eq!(
        assembled.entries.iter().map(|e| e.original_name.as_str()).collect::<Vec<_>>(),
        vec!["/", "/about", "/api"]
    );
    let mut by_steps = Output::new();
    commit(
        &assembled,
        &build.entries.rsc_runtime_entries,
        &mut by_steps.app_build,
        &mut by_steps.build,
        &mut by_steps.app_paths,
        &mut by_steps.client_references,
        &mut by_steps.all_chunks,
    );
    let mut at_once = Output::new();
    build.run(&mut at_once).unwrap();
    assert_eq!(by_steps.all_chunks, at_once.all_chunks);
    assert_eq!(by_steps.build.root_main_files, at_once.build.root_main_files);
    assert_eq!(by_steps.app_build.pages.get("/about"), at_once.app_build.pages.get("/about"));
    assert_eq!(by_steps.app_paths.pages.get("/about"), at_once.app_paths.pages.get("/about"));
}

#[test]
fn the_graph_and_the_chunks_answer_what_was_recorded() {
    let build = typical();
    assert_eq!(
        build.graph.entry("/"),
        Some(&vec![ClientReference { id: 10 }, ClientReference { id: 11 }])
    );
    assert_eq!(build.graph.entry("/api"), None);
    assert!(build.chunks.get(ClientReference { id: 12 }).is_some());
    assert!(build.chunks.get(ClientReference { id: 13 }).is_none());
    assert_eq!(
        build.chunks.get(ClientReference { id: 11 }).map(|c| c.client_chunks.clone()),
        Some(vec![chunk(110, "out/client/chunks/counter.js")])
    );
}

#[test]
fn copies_are_equal() {
    let chunks = vec![chunk(1, "a"), chunk(2, "b")];
    assert_eq!(chunks[0].duplicate(), chunks[0]);
    let set = ClientReferenceChunks { client_chunks: chunks, ssr_chunks: vec![chunk(3, "c")] };
    assert_eq!(set.duplicate(), set);
}

#[test]
fn pages_a_route_handler_and_a_favicon_end_to_end() {
    let project_root = FileSystemPath::new(1, "project");
    let app = AppDirectory {
        app_dir: FileSystemPath::new(1, "project/app"),
        entrypoints: vec![
            ("/".to_string(), Entrypoint::AppPage { loader_tree: LoaderTree { id: 1 } }),
            ("/about".to_string(), Entrypoint::AppPage { loader_tree: LoaderTree { id: 2 } }),
            (
                "/api".to_string(),
                Entrypoint::AppRoute { path: FileSystemPath::new(1, "project/app/api/route.ts") },
            ),
        ],
        favicon: Some(FileSystemPath::new(1, "project/app/favicon.ico")),
    };
    let entries = get_app_entries(
        &project_root,
        CompileTimeInfo { id: 1 },
        CompileTimeInfo { id: 2 },
        Config { id: 1 },
        Some(&app),
        &RuntimeReferences { server: RuntimeEntries(vec![]), client: RuntimeEntries(vec![]) },
        &Resolver::new(),
    )
    .unwrap();
    assert_eq!(entries.entries.len(), 4);

    let mut build = typical();
    build.entries = entries;
    let mut out = Output::new();
    assert_eq!(build.run(&mut out), Ok(()));

    let shared = strings(&["chunks/runtime.js", "chunks/main.js"]);
    assert_eq!(out.build.root_main_files, shared);
    assert_eq!(out.app_paths.pages.len(), 4);
    assert_eq!(out.app_build.pages.len(), 4);
    for name in ["/", "/about", "/api", "/favicon.ico"] {
        let path = out.app_paths.pages.get(name).unwrap();
        assert!(path.starts_with("server/app/"));
        assert!(path.ends_with(".js"));
        let listed = out.app_build.pages.get(name).unwrap();
        assert!(listed.len() >= shared.len());
        assert_eq!(listed[listed.len() - shared.len()..], shared[..]);
    }
    assert_eq!(
        out.app_paths.pages.get("/favicon.ico"),
        Some(&"server/app//favicon.ico.js".to_string())
    );
    assert_eq!(out.all_chunks.len(), 4 + 2 * 4);
}
