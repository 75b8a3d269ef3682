//! The entries of the app directory: one for each route that was discovered,
//! with the contexts they are built in and the runtime entries that go before
//! them.

use vstd::prelude::*;
use vstd::string::*;
use crate::context::{build_context, built_context, ContextKind, ExecutionContext, Mode};
use crate::error::{Error, ErrorView};
use crate::fs_path::{FileSystemPath, PathView};
use crate::handle::{CompileTimeInfo, Config, LoaderTree};
use crate::runtime_entry::{
    resolved_entries,
    EvaluatableAsset,
    ResolutionView,
    Resolver,
    RuntimeEntries,
    RuntimeEntryView,
};
use crate::transition::{ContextTransition, ModuleAssetContext, Transition, TransitionsByName};

verus! {

/// A route as it was discovered.
#[derive(Clone, Debug, PartialEq, Eq)]
pub enum Entrypoint {
    /// A page, given by the tree of its loaders.
    AppPage { loader_tree: LoaderTree },
    /// A route handler, given by its source file.
    AppRoute { path: FileSystemPath },
}

/// What an [`Entrypoint`] denotes.
pub enum EntrypointView {
    AppPage { loader_tree: LoaderTree },
    AppRoute { path: PathView },
}

impl View for Entrypoint {
    type V = EntrypointView;

    open spec fn view(&self) -> EntrypointView {
        match self {
            Entrypoint::AppPage { loader_tree } => EntrypointView::AppPage {
                loader_tree: *loader_tree,
            },
            Entrypoint::AppRoute { path } => EntrypointView::AppRoute { path: path@ },
        }
    }
}

impl DeepView for Entrypoint {
    type V = EntrypointView;

    open spec fn deep_view(&self) -> EntrypointView {
        self@
    }
}

/// What was discovered in the app directory of a project.
#[derive(Clone, Debug, PartialEq, Eq)]
pub struct AppDirectory {
    /// The directory itself.
    pub app_dir: FileSystemPath,
    /// The routes by pathname, in the order of their discovery.
    pub entrypoints: Vec<(String, Entrypoint)>,
    /// The favicon that all routes share, where there is one.
    pub favicon: Option<FileSystemPath>,
}

/// What an [`AppDirectory`] denotes.
pub struct AppDirectoryView {
    pub app_dir: PathView,
    pub entrypoints: Seq<(Seq<char>, EntrypointView)>,
    pub favicon: Option<PathView>,
}

impl View for AppDirectory {
    type V = AppDirectoryView;

    open spec fn view(&self) -> AppDirectoryView {
        AppDirectoryView {
            app_dir: self.app_dir@,
            entrypoints: self.entrypoints.deep_view(),
            favicon: self.favicon.deep_view(),
        }
    }
}

impl DeepView for AppDirectory {
    type V = AppDirectoryView;

    open spec fn deep_view(&self) -> AppDirectoryView {
        self@
    }
}

/// What the server-component context evaluates for an entry.
#[derive(Clone, Debug, PartialEq, Eq)]
pub enum RscEntry {
    /// The page that the loader tree describes, within the app directory.
    Page { loader_tree: LoaderTree, app_dir: FileSystemPath },
    /// The route handler in the source file.
    Route { source: FileSystemPath },
    /// The route that serves the favicon file.
    Favicon { source: FileSystemPath },
}

/// What an [`RscEntry`] denotes.
pub enum RscEntryView {
    Page { loader_tree: LoaderTree, app_dir: PathView },
    Route { source: PathView },
    Favicon { source: PathView },
}

impl View for RscEntry {
    type V = RscEntryView;

    open spec fn view(&self) -> RscEntryView {
        match self {
            RscEntry::Page { loader_tree, app_dir } => RscEntryView::Page {
                loader_tree: *loader_tree,
                app_dir: app_dir@,
            },
            RscEntry::Route { source } => RscEntryView::Route { source: source@ },
            RscEntry::Favicon { source } => RscEntryView::Favicon { source: source@ },
        }
    }
}

/// The entry of one route.
#[derive(Clone, Debug, PartialEq, Eq)]
pub struct AppEntry {
    /// The name of the route, under which the manifests list it.
    pub original_name: String,
    /// What is evaluated in the server-component context for the route.
    pub rsc_entry: RscEntry,
}

/// What an [`AppEntry`] denotes.
pub struct AppEntryView {
    pub original_name: Seq<char>,
    pub rsc_entry: RscEntryView,
}

impl View for AppEntry {
    type V = AppEntryView;

    open spec fn view(&self) -> AppEntryView {
        AppEntryView { original_name: self.original_name@, rsc_entry: self.rsc_entry@ }
    }
}

impl DeepView for AppEntry {
    type V = AppEntryView;

    open spec fn deep_view(&self) -> AppEntryView {
        self@
    }
}

/// All that is known of the entries of an app.
#[derive(Clone, Debug, PartialEq, Eq)]
pub struct AppEntries {
    /// All app entries.
    pub entries: Vec<AppEntry>,
    /// The runtime entries that are evaluated before any app entry module
    /// when server components render.
    pub rsc_runtime_entries: Vec<EvaluatableAsset>,
    /// The runtime entries that are evaluated before any app entry module on
    /// the client.
    pub client_runtime_entries: Vec<EvaluatableAsset>,
}

/// What [`AppEntries`] denote.
pub struct AppEntriesView {
    pub entries: Seq<AppEntryView>,
    pub rsc_runtime_entries: Seq<EvaluatableAsset>,
    pub client_runtime_entries: Seq<EvaluatableAsset>,
}

impl View for AppEntries {
    type V = AppEntriesView;

    open spec fn view(&self) -> AppEntriesView {
        AppEntriesView {
            entries: self.entries.deep_view(),
            rsc_runtime_entries: self.rsc_runtime_entries@,
            client_runtime_entries: self.client_runtime_entries@,
        }
    }
}

/// The references to the runtime entries of a project, for the server and for
/// the client.
#[derive(Clone, Debug, PartialEq, Eq)]
pub struct RuntimeReferences {
    pub server: RuntimeEntries,
    pub client: RuntimeEntries,
}

/// The name of the transition that promotes a module to the client.
pub open spec fn client_reference_transition_name() -> Seq<char> {
    "next-ecmascript-client-reference"@
}

/// The name of the transition at a dynamic import boundary.
pub open spec fn dynamic_transition_name() -> Seq<char> {
    "next-dynamic"@
}

/// The name of the route that serves the favicon.
pub open spec fn favicon_route_name() -> Seq<char> {
    "/favicon.ico"@
}

/// The context that the client side of an app is built in.
pub open spec fn client_execution_context(
    project_root: FileSystemPath,
    next_config: Config,
    client_compile_time_info: CompileTimeInfo,
) -> ExecutionContext {
    built_context(
        ContextKind::Client,
        project_root,
        Mode::Build,
        next_config,
        client_compile_time_info,
    )
}

/// The context in which client components are rendered on the server.
pub open spec fn ssr_execution_context(
    project_root: FileSystemPath,
    next_config: Config,
    server_compile_time_info: CompileTimeInfo,
) -> ExecutionContext {
    built_context(
        ContextKind::ServerSideRender,
        project_root,
        Mode::Build,
        next_config,
        server_compile_time_info,
    )
}

/// The context in which server components are rendered.
pub open spec fn rsc_execution_context(
    project_root: FileSystemPath,
    next_config: Config,
    server_compile_time_info: CompileTimeInfo,
) -> ExecutionContext {
    built_context(
        ContextKind::ServerComponent,
        project_root,
        Mode::Build,
        next_config,
        server_compile_time_info,
    )
}

/// The transitions that can be crossed from the server-component context: the
/// promotion to the client, and the dynamic import boundary.
pub open spec fn app_transitions(
    project_root: FileSystemPath,
    next_config: Config,
    client_compile_time_info: CompileTimeInfo,
    server_compile_time_info: CompileTimeInfo,
) -> Map<Seq<char>, Transition> {
    let client_transition = ContextTransition {
        context: client_execution_context(project_root, next_config, client_compile_time_info),
    };
    let ssr_transition = ContextTransition {
        context: ssr_execution_context(project_root, next_config, server_compile_time_info),
    };
    Map::<Seq<char>, Transition>::empty().insert(
        client_reference_transition_name(),
        Transition::ClientReference { client_transition, ssr_transition },
    ).insert(dynamic_transition_name(), Transition::Dynamic { client_transition })
}

/// The entry of a discovered route: it goes by the pathname of the route.
pub open spec fn entry_of(pathname: Seq<char>, entrypoint: EntrypointView, app_dir: PathView)
    -> AppEntryView {
    AppEntryView {
        original_name: pathname,
        rsc_entry: match entrypoint {
            EntrypointView::AppPage { loader_tree } => RscEntryView::Page { loader_tree, app_dir },
            EntrypointView::AppRoute { path } => RscEntryView::Route { source: path },
        },
    }
}

/// The entry that is made for the favicon.
pub open spec fn favicon_entry(favicon: PathView) -> AppEntryView {
    AppEntryView {
        original_name: favicon_route_name(),
        rsc_entry: RscEntryView::Favicon { source: favicon },
    }
}

/// The entries of an app: one for each discovered route, in the order of
/// discovery, and after them one for the favicon where there is one.
pub open spec fn entries_of(app: AppDirectoryView) -> Seq<AppEntryView> {
    let discovered = Seq::new(
        app.entrypoints.len(),
        |i: int| entry_of(app.entrypoints[i].0, app.entrypoints[i].1, app.app_dir),
    );
    match app.favicon {
        Some(favicon) => discovered.push(favicon_entry(favicon)),
        None => discovered,
    }
}

/// What [`get_app_entries`] returns for what was discovered: nothing where the
/// project has no app directory; else the entries with the runtime entries of
/// the server-component context and of the client context, or the failure of
/// the first runtime entry that does not resolve, the server's before the
/// client's.
pub open spec fn app_entries_of(
    app: Option<AppDirectoryView>,
    server: Seq<RuntimeEntryView>,
    client: Seq<RuntimeEntryView>,
    resolver: Seq<ResolutionView>,
) -> Result<AppEntriesView, ErrorView> {
    match app {
        None => Ok(
            AppEntriesView {
                entries: Seq::empty(),
                rsc_runtime_entries: Seq::empty(),
                client_runtime_entries: Seq::empty(),
            },
        ),
        Some(app) => match resolved_entries(server, ContextKind::ServerComponent, resolver) {
            Err(e) => Err(e),
            Ok(rsc_runtime_entries) => match resolved_entries(
                client,
                ContextKind::Client,
                resolver,
            ) {
                Err(e) => Err(e),
                Ok(client_runtime_entries) => Ok(
                    AppEntriesView {
                        entries: entries_of(app),
                        rsc_runtime_entries,
                        client_runtime_entries,
                    },
                ),
            },
        },
    }
}

/// There are as many entries as discovered routes, and one more where a
/// favicon was discovered; the entries of the routes come in the order of
/// discovery, under the pathnames of the routes, and that of the favicon comes
/// last.
pub proof fn lemma_entries_follow_discovery(app: AppDirectoryView)
    ensures
        entries_of(app).len() == app.entrypoints.len() + if app.favicon is Some {
            1nat
        } else {
            0nat
        },
        forall|i: int|
            0 <= i < app.entrypoints.len() ==> #[trigger] entries_of(app)[i] == entry_of(
                app.entrypoints[i].0,
                app.entrypoints[i].1,
                app.app_dir,
            ),
        forall|i: int|
            0 <= i < app.entrypoints.len() ==> (#[trigger] entries_of(app)[i]).original_name
                == app.entrypoints[i].0,
        app.favicon matches Some(favicon) ==> entries_of(app).last() == favicon_entry(favicon),
{
}

/// The entries of an app depend on what was discovered and on what the
/// resolution engine answered, and on nothing else: the same discovery, the
/// same references and the same answers give the same entries and the same
/// runtime entries, or the same failure.
pub proof fn lemma_app_entries_are_determined(
    app: Option<AppDirectoryView>,
    other_app: Option<AppDirectoryView>,
    server: Seq<RuntimeEntryView>,
    other_server: Seq<RuntimeEntryView>,
    client: Seq<RuntimeEntryView>,
    other_client: Seq<RuntimeEntryView>,
    resolver: Seq<ResolutionView>,
    other_resolver: Seq<ResolutionView>,
)
    requires
        app is Some == other_app is Some,
        app matches Some(found) ==> {
            &&& found.app_dir == other_app->Some_0.app_dir
            &&& found.entrypoints =~= other_app->Some_0.entrypoints
            &&& found.favicon == other_app->Some_0.favicon
        },
        server =~= other_server,
        client =~= other_client,
        resolver =~= other_resolver,
    ensures
        app_entries_of(app, server, client, resolver) == app_entries_of(
            other_app,
            other_server,
            other_client,
            other_resolver,
        ),
{
}

/// The context that the client side of the app is built in. No transition
/// leads out of it.
pub fn client_context(
    project_root: &FileSystemPath,
    next_config: Config,
    client_compile_time_info: CompileTimeInfo,
) -> (res: ModuleAssetContext)
    ensures
        res.transitions@ == Map::<Seq<char>, Transition>::empty(),
        res.context == client_execution_context(
            *project_root,
            next_config,
            client_compile_time_info,
        ),
{
    let client = build_context(
        ContextKind::Client,
        project_root,
        Mode::Build,
        next_config,
        client_compile_time_info,
    );
    ModuleAssetContext::new(
        TransitionsByName::new(),
        client.compile_time_info,
        client.module_options_context,
        client.resolve_options_context,
    )
}

/// The context in which the server components of the app are rendered, with
/// the two transitions that lead out of it.
pub fn rsc_context(
    project_root: &FileSystemPath,
    next_config: Config,
    client_compile_time_info: CompileTimeInfo,
    server_compile_time_info: CompileTimeInfo,
) -> (res: ModuleAssetContext)
    ensures
        res.transitions@ == app_transitions(
            *project_root,
            next_config,
            client_compile_time_info,
            server_compile_time_info,
        ),
        res.context == rsc_execution_context(
            *project_root,
            next_config,
            server_compile_time_info,
        ),
{
    let mode = Mode::Build;
    let client = build_context(
        ContextKind::Client,
        project_root,
        mode,
        next_config,
        client_compile_time_info,
    );
    let ssr = build_context(
        ContextKind::ServerSideRender,
        project_root,
        mode,
        next_config,
        server_compile_time_info,
    );
    let client_transition = ContextTransition::new(
        client.compile_time_info,
        client.module_options_context,
        client.resolve_options_context,
    );
    let ssr_transition = ContextTransition::new(
        ssr.compile_time_info,
        ssr.module_options_context,
        ssr.resolve_options_context,
    );

    let mut transitions = TransitionsByName::new();
    let dynamic = Transition::Dynamic { client_transition: client_transition.duplicate() };
    transitions.register(
        String::from_str("next-ecmascript-client-reference"),
        Transition::ClientReference { client_transition, ssr_transition },
    );
    transitions.register(String::from_str("next-dynamic"), dynamic);

    let rsc = build_context(
        ContextKind::ServerComponent,
        project_root,
        mode,
        next_config,
        server_compile_time_info,
    );
    ModuleAssetContext::new(
        transitions,
        rsc.compile_time_info,
        rsc.module_options_context,
        rsc.resolve_options_context,
    )
}

/// Computes all app entries of a project from what was discovered in it.
///
/// Without an app directory there is nothing: no entry and no runtime entry.
/// With one, each discovered route gives an entry, in the order of discovery:
/// a page is built from its loader tree, a route handler from its source
/// file. A discovered favicon gives one more entry, after all of these. The
/// runtime entries are resolved in the server-component context and in the
/// client context.
pub fn get_app_entries(
    project_root: &FileSystemPath,
    client_compile_time_info: CompileTimeInfo,
    server_compile_time_info: CompileTimeInfo,
    next_config: Config,
    app: Option<&AppDirectory>,
    runtime_references: &RuntimeReferences,
    resolver: &Resolver,
) -> (res: Result<AppEntries, Error>)
    ensures
        match res {
            Ok(app_entries) => app_entries_of(
                app.deep_view(),
                runtime_references.server@,
                runtime_references.client@,
                resolver@,
            ) == Ok::<AppEntriesView, ErrorView>(app_entries@),
            Err(e) => app_entries_of(
                app.deep_view(),
                runtime_references.server@,
                runtime_references.client@,
                resolver@,
            ) == Err::<AppEntriesView, ErrorView>(e@),
        },
{
    let Some(app) = app else {
        let none = AppEntries {
            entries: Vec::new(),
            rsc_runtime_entries: Vec::new(),
            client_runtime_entries: Vec::new(),
        };
        assert(none@.entries =~= Seq::empty());
        return Ok(none);
    };

    let rsc_context = rsc_context(
        project_root,
        next_config,
        client_compile_time_info,
        server_compile_time_info,
    );

    let mut entries: Vec<AppEntry> = Vec::new();
    let mut i: usize = 0;
    while i < app.entrypoints.len()
        invariant
            i <= app.entrypoints.len(),
            entries.len() == i,
            forall|j: int|
                0 <= j < i ==> (#[trigger] entries@[j])@ == entry_of(
                    app@.entrypoints[j].0,
                    app@.entrypoints[j].1,
                    app@.app_dir,
                ),
        decreases app.entrypoints.len() - i,
    {
        let (pathname, entrypoint) = &app.entrypoints[i];
        let rsc_entry = match entrypoint {
            Entrypoint::AppPage { loader_tree } => RscEntry::Page {
                loader_tree: *loader_tree,
                app_dir: app.app_dir.duplicate(),
            },
            Entrypoint::AppRoute { path } => RscEntry::Route { source: path.duplicate() },
        };
        entries.push(AppEntry { original_name: pathname.clone(), rsc_entry });
        i = i + 1;
    }

    if let Some(favicon) = &app.favicon {
        entries.push(
            AppEntry {
                original_name: String::from_str("/favicon.ico"),
                rsc_entry: RscEntry::Favicon { source: favicon.duplicate() },
            },
        );
    }
    assert(entries.deep_view() =~= entries_of(app@));

    let client_context = client_context(project_root, next_config, client_compile_time_info);

    let rsc_runtime_entries = match runtime_references.server.resolve_entries(
        &rsc_context,
        resolver,
    ) {
        Ok(assets) => assets,
        Err(e) => {
            return Err(e);
        },
    };
    let client_runtime_entries = match runtime_references.client.resolve_entries(
        &client_context,
        resolver,
    ) {
        Ok(assets) => assets,
        Err(e) => {
            return Err(e);
        },
    };

    Ok(AppEntries { entries, rsc_runtime_entries, client_runtime_entries })
}

} // verus!
