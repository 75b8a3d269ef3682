use next_app_entries::app_entries::{
    client_context, get_app_entries, rsc_context, AppDirectory, AppEntries, AppEntry, Entrypoint,
    RscEntry, RuntimeReferences,
};
use next_app_entries::context::{build_context, ContextKind, Mode};
use next_app_entries::error::Error;
use next_app_entries::fs_path::FileSystemPath;
use next_app_entries::handle::{CompileTimeInfo, Config, LoaderTree, Module, Source};
use next_app_entries::runtime_entry::{
    Candidate, EvaluatableAsset, Resolution, Resolver, RuntimeEntries, RuntimeEntry,
};
use next_app_entries::transition::{ContextTransition, Transition};

const CLIENT_INFO: CompileTimeInfo = CompileTimeInfo { id: 1 };
const SERVER_INFO: CompileTimeInfo = CompileTimeInfo { id: 2 };
const CONFIG: Config = Config { id: 3 };

fn project_root() -> FileSystemPath {
    FileSystemPath::new(1, "project")
}

fn app_dir() -> FileSystemPath {
    FileSystemPath::new(1, "project/app")
}

fn page(pathname: &str, tree: u64) -> (String, Entrypoint) {
    (pathname.to_string(), Entrypoint::AppPage { loader_tree: LoaderTree { id: tree } })
}

fn route(pathname: &str, file: &str) -> (String, Entrypoint) {
    (pathname.to_string(), Entrypoint::AppRoute { path: FileSystemPath::new(1, file) })
}

fn no_runtime() -> RuntimeReferences {
    RuntimeReferences { server: RuntimeEntries(vec![]), client: RuntimeEntries(vec![]) }
}

fn entries_of(app: Option<&AppDirectory>) -> Result<AppEntries, Error> {
    get_app_entries(
        &project_root(),
        CLIENT_INFO,
        SERVER_INFO,
        CONFIG,
        app,
        &no_runtime(),
        &Resolver::new(),
    )
}

#[test]
fn without_an_app_directory_there_is_nothing() {
    let runtime = RuntimeReferences {
        server: RuntimeEntries(vec![RuntimeEntry::Evaluatable(EvaluatableAsset::Module(
            Module { id: 1 },
        ))]),
        client: RuntimeEntries(vec![RuntimeEntry::Source(Source { id: 1 })]),
    };
    let entries = get_app_entries(
        &project_root(),
        CLIENT_INFO,
        SERVER_INFO,
        CONFIG,
        None,
        &runtime,
        &Resolver::new(),
    );
    assert_eq!(
        entries,
        Ok(AppEntries {
            entries: vec![],
            rsc_runtime_entries: vec![],
            client_runtime_entries: vec![],
        })
    );
}

#[test]
fn each_discovered_route_gives_an_entry_in_the_order_of_discovery() {
    let app = AppDirectory {
        app_dir: app_dir(),
        entrypoints: vec![
            page("/zebra", 1),
            route("/api", "project/app/api/route.ts"),
            page("/", 2),
            page("/about", 3),
        ],
        favicon: None,
    };
    let entries = entries_of(Some(&app)).unwrap().entries;
    assert_eq!(
        entries,
        vec![
            AppEntry {
                original_name: "/zebra".to_string(),
                rsc_entry: RscEntry::Page { loader_tree: LoaderTree { id: 1 }, app_dir: app_dir() },
            },
            AppEntry {
                original_name: "/api".to_string(),
                rsc_entry: RscEntry::Route {
                    source: FileSystemPath::new(1, "project/app/api/route.ts"),
                },
            },
            AppEntry {
                original_name: "/".to_string(),
                rsc_entry: RscEntry::Page { loader_tree: LoaderTree { id: 2 }, app_dir: app_dir() },
            },
            AppEntry {
                original_name: "/about".to_string(),
                rsc_entry: RscEntry::Page { loader_tree: LoaderTree { id: 3 }, app_dir: app_dir() },
            },
        ]
    );
}

#[test]
fn the_favicon_gives_one_more_entry_after_all_routes() {
    let routes = vec![page("/", 1), page("/about", 2), route("/api", "project/app/api/route.ts")];
    let without = AppDirectory { app_dir: app_dir(), entrypoints: routes.clone(), favicon: None };
    let with = AppDirectory {
        app_dir: app_dir(),
        entrypoints: routes,
        favicon: Some(FileSystemPath::new(1, "project/app/favicon.ico")),
    };
    let without = entries_of(Some(&without)).unwrap().entries;
    let with = entries_of(Some(&with)).unwrap().entries;
    assert_eq!(without.len(), 3);
    assert_eq!(with.len(), 4);
    assert_eq!(with[..3], without[..]);
    assert_eq!(
        with[3],
        AppEntry {
            original_name: "/favicon.ico".to_string(),
            rsc_entry: RscEntry::Favicon {
                source: FileSystemPath::new(1, "project/app/favicon.ico"),
            },
        }
    );
}

#[test]
fn an_empty_app_directory_has_no_entries() {
    let app = AppDirectory { app_dir: app_dir(), entrypoints: vec![], favicon: None };
    assert_eq!(entries_of(Some(&app)).unwrap().entries, vec![]);
    let only_favicon = AppDirectory {
        app_dir: app_dir(),
        entrypoints: vec![],
        favicon: Some(FileSystemPath::new(1, "project/app/favicon.ico")),
    };
    assert_eq!(entries_of(Some(&only_favicon)).unwrap().entries.len(), 1);
}

#[test]
fn runtime_entries_are_resolved_in_their_own_contexts() {
    let origin = FileSystemPath::new(1, "project");
    let runtime = RuntimeReferences {
        server: RuntimeEntries(vec![
            RuntimeEntry::Source(Source { id: 5 }),
            RuntimeEntry::Request("./bootstrap".to_string(), origin.clone()),
        ]),
        client: RuntimeEntries(vec![
            RuntimeEntry::Request("./bootstrap".to_string(), origin.clone()),
            RuntimeEntry::Source(Source { id: 5 }),
        ]),
    };
    let answer = |context, id| Resolution {
        context,
        request: "./bootstrap".to_string(),
        origin: origin.clone(),
        candidates: vec![Candidate {
            module: Module { id },
            ident: "bootstrap".to_string(),
            evaluatable: true,
        }],
    };
    let resolver = Resolver {
        resolutions: vec![
            answer(ContextKind::Client, 100),
            answer(ContextKind::ServerComponent, 200),
        ],
    };
    let app = AppDirectory { app_dir: app_dir(), entrypoints: vec![page("/", 1)], favicon: None };
    let entries = get_app_entries(
        &project_root(),
        CLIENT_INFO,
        SERVER_INFO,
        CONFIG,
        Some(&app),
        &runtime,
        &resolver,
    )
    .unwrap();
    assert_eq!(
        entries.rsc_runtime_entries,
        vec![
            EvaluatableAsset::Source(Source { id: 5 }, ContextKind::ServerComponent),
            EvaluatableAsset::Module(Module { id: 200 }),
        ]
    );
    assert_eq!(
        entries.client_runtime_entries,
        vec![
            EvaluatableAsset::Module(Module { id: 100 }),
            EvaluatableAsset::Source(Source { id: 5 }, ContextKind::Client),
        ]
    );
}

#[test]
fn a_runtime_entry_that_cannot_be_evaluated_fails_the_server_first() {
    let origin = FileSystemPath::new(1, "project");
    let runtime = RuntimeReferences {
        server: RuntimeEntries(vec![RuntimeEntry::Request("./s".to_string(), origin.clone())]),
        client: RuntimeEntries(vec![RuntimeEntry::Request("./c".to_string(), origin.clone())]),
    };
    let bad = |context, request: &str, ident: &str| Resolution {
        context,
        request: request.to_string(),
        origin: origin.clone(),
        candidates: vec![Candidate {
            module: Module { id: 1 },
            ident: ident.to_string(),
            evaluatable: false,
        }],
    };
    let app = AppDirectory { app_dir: app_dir(), entrypoints: vec![page("/", 1)], favicon: None };
    let both = Resolver {
        resolutions: vec![
            bad(ContextKind::Client, "./c", "client.css"),
            bad(ContextKind::ServerComponent, "./s", "server.css"),
        ],
    };
    let run = |resolver: &Resolver| {
        get_app_entries(
            &project_root(),
            CLIENT_INFO,
            SERVER_INFO,
            CONFIG,
            Some(&app),
            &runtime,
            resolver,
        )
    };
    assert_eq!(run(&both), Err(Error::NotEvaluatable { ident: "server.css".to_string() }));
    let client_only = Resolver { resolutions: vec![bad(ContextKind::Client, "./c", "client.css")] };
    let failure = run(&client_only).unwrap_err();
    assert_eq!(failure, Error::NotEvaluatable { ident: "client.css".to_string() });
    assert!(!failure.is_internal_fault());
}

#[test]
fn the_server_component_context_knows_both_transitions() {
    let context = rsc_context(&project_root(), CONFIG, CLIENT_INFO, SERVER_INFO);
    let client = build_context(ContextKind::Client, &project_root(), Mode::Build, CONFIG, CLIENT_INFO);
    let ssr = build_context(
        ContextKind::ServerSideRender,
        &project_root(),
        Mode::Build,
        CONFIG,
        SERVER_INFO,
    );
    assert_eq!(
        context.context,
        build_context(ContextKind::ServerComponent, &project_root(), Mode::Build, CONFIG, SERVER_INFO)
    );
    assert_eq!(
        context.transitions.lookup("next-ecmascript-client-reference"),
        Ok(&Transition::ClientReference {
            client_transition: ContextTransition { context: client.clone() },
            ssr_transition: ContextTransition { context: ssr },
        })
    );
    assert_eq!(
        context.transitions.lookup("next-dynamic"),
        Ok(&Transition::Dynamic { client_transition: ContextTransition { context: client.clone() } })
    );
    assert!(!context.transitions.contains("next-client"));
    assert_eq!(context.with_transition("next-dynamic"), Ok(client));
}

#[test]
fn no_transition_leads_out_of_the_client_context() {
    let context = client_context(&project_root(), CONFIG, CLIENT_INFO);
    assert_eq!(
        context.context,
        build_context(ContextKind::Client, &project_root(), Mode::Build, CONFIG, CLIENT_INFO)
    );
    assert!(!context.transitions.contains("next-dynamic"));
    assert!(!context.transitions.contains("next-ecmascript-client-reference"));
}

#[test]
fn the_same_discovery_gives_the_same_entries() {
    let app = AppDirectory {
        app_dir: app_dir(),
        entrypoints: vec![page("/", 1), route("/api", "project/app/api/route.ts")],
        favicon: Some(FileSystemPath::new(1, "project/app/favicon.ico")),
    };
    assert_eq!(entries_of(Some(&app)), entries_of(Some(&app)));
}
