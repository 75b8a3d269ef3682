use next_app_entries::context::{
    build_context, ContextKind, ExecutionContext, Mode, ModuleOptionsContext,
    ResolveOptionsContext,
};
use next_app_entries::error::Error;
use next_app_entries::fs_path::FileSystemPath;
use next_app_entries::handle::{ChunkingContext, CompileTimeInfo, Config, Module, Source};
use next_app_entries::inner_assets::InnerAssets;
use next_app_entries::page_transition::{
    ChunkGroupFilesAsset, NextEdgePageTransition, ProcessSource, ProcessedModule, ReferenceType,
};
use next_app_entries::transition::{
    ContextTransition, ModuleAssetContext, Transition, TransitionsByName,
};

fn root() -> FileSystemPath {
    FileSystemPath::new(1, "project")
}

fn context_of(kind: ContextKind, info: u64) -> ExecutionContext {
    build_context(kind, &root(), Mode::Build, Config { id: 1 }, CompileTimeInfo { id: info })
}

fn edge_transition(module_options: Option<ModuleOptionsContext>) -> NextEdgePageTransition {
    let edge = context_of(ContextKind::Edge, 30);
    NextEdgePageTransition {
        edge_compile_time_info: edge.compile_time_info,
        edge_chunking_context: ChunkingContext { id: 4 },
        edge_module_options_context: module_options,
        edge_resolve_options_context: edge.resolve_options_context,
        output_path: FileSystemPath::new(1, "out/edge"),
        bootstrap_asset: Source { id: 77 },
    }
}

#[test]
fn build_context_records_what_it_was_built_from() {
    let context = context_of(ContextKind::ServerSideRender, 9);
    assert_eq!(context.compile_time_info, CompileTimeInfo { id: 9 });
    assert_eq!(
        context.module_options_context,
        ModuleOptionsContext {
            kind: ContextKind::ServerSideRender,
            project_root: root(),
            mode: Mode::Build,
            config: Config { id: 1 },
        }
    );
    assert_eq!(
        context.resolve_options_context,
        ResolveOptionsContext {
            kind: ContextKind::ServerSideRender,
            project_root: root(),
            mode: Mode::Build,
            config: Config { id: 1 },
        }
    );
    assert_eq!(context.kind(), ContextKind::ServerSideRender);
}

#[test]
fn build_context_gives_the_same_for_the_same() {
    for kind in [
        ContextKind::Client,
        ContextKind::ServerComponent,
        ContextKind::ServerSideRender,
        ContextKind::Edge,
    ] {
        assert_eq!(context_of(kind, 2), context_of(kind, 2));
        assert_eq!(context_of(kind, 2).kind(), kind);
    }
    assert_ne!(context_of(ContextKind::Client, 2), context_of(ContextKind::Edge, 2));
    assert_ne!(context_of(ContextKind::Client, 2), context_of(ContextKind::Client, 3));
}

#[test]
fn a_context_transition_replaces_all_three_parts() {
    let client = context_of(ContextKind::Client, 10);
    let server = context_of(ContextKind::ServerComponent, 20);
    let transition = Transition::Context(ContextTransition { context: client.clone() });
    assert_eq!(
        transition.process_compile_time_info(server.compile_time_info),
        client.compile_time_info
    );
    assert_eq!(
        transition.process_module_options_context(server.module_options_context.clone()),
        client.module_options_context
    );
    assert_eq!(
        transition.process_resolve_options_context(server.resolve_options_context.clone()),
        client.resolve_options_context
    );
    assert_eq!(transition.process_context(server), client);
}

#[test]
fn a_client_reference_transition_passes_the_context_through() {
    let client = context_of(ContextKind::Client, 10);
    let ssr = context_of(ContextKind::ServerSideRender, 20);
    let server = context_of(ContextKind::ServerComponent, 20);
    let transition = Transition::ClientReference {
        client_transition: ContextTransition { context: client },
        ssr_transition: ContextTransition { context: ssr },
    };
    assert_eq!(transition.process_context(server.clone()), server);
}

#[test]
fn a_dynamic_transition_leads_into_the_client_context() {
    let client = context_of(ContextKind::Client, 10);
    let server = context_of(ContextKind::ServerComponent, 20);
    let transition =
        Transition::Dynamic { client_transition: ContextTransition { context: client.clone() } };
    assert_eq!(transition.process_context(server), client);
}

#[test]
fn context_transition_new_is_made_of_its_parts() {
    let client = context_of(ContextKind::Client, 10);
    let made = ContextTransition::new(
        client.compile_time_info,
        client.module_options_context.clone(),
        client.resolve_options_context.clone(),
    );
    assert_eq!(made, ContextTransition { context: client });
}

#[test]
fn the_edge_transition_takes_compile_time_info_and_resolve_options_from_the_edge() {
    let transition = edge_transition(None);
    let server = context_of(ContextKind::ServerComponent, 20);
    assert_eq!(
        transition.process_compile_time_info(server.compile_time_info),
        CompileTimeInfo { id: 30 }
    );
    assert_eq!(
        transition.process_resolve_options_context(server.resolve_options_context.clone()),
        context_of(ContextKind::Edge, 30).resolve_options_context
    );
}

#[test]
fn the_edge_transition_keeps_module_options_unless_it_has_its_own() {
    let server = context_of(ContextKind::ServerComponent, 20);
    assert_eq!(
        edge_transition(None)
            .process_module_options_context(server.module_options_context.clone()),
        server.module_options_context
    );
    let own = context_of(ContextKind::Edge, 30).module_options_context;
    assert_eq!(
        edge_transition(Some(own.clone()))
            .process_module_options_context(server.module_options_context.clone()),
        own
    );
}

#[test]
fn the_edge_transition_as_a_registered_transition() {
    let server = context_of(ContextKind::ServerComponent, 20);
    let transition = Transition::EdgePage(edge_transition(None));
    let after = transition.process_context(server.clone());
    assert_eq!(after.compile_time_info, CompileTimeInfo { id: 30 });
    assert_eq!(after.module_options_context, server.module_options_context);
    assert_eq!(
        after.resolve_options_context,
        context_of(ContextKind::Edge, 30).resolve_options_context
    );
}

#[test]
fn a_registered_transition_is_found_under_its_name() {
    let mut transitions = TransitionsByName::new();
    assert!(!transitions.contains("next-dynamic"));
    let dynamic = Transition::Dynamic {
        client_transition: ContextTransition { context: context_of(ContextKind::Client, 10) },
    };
    transitions.register("next-dynamic".to_string(), dynamic.clone());
    assert!(transitions.contains("next-dynamic"));
    assert_eq!(transitions.lookup("next-dynamic"), Ok(&dynamic));
}

#[test]
fn a_name_that_was_not_registered_is_not_found() {
    let mut transitions = TransitionsByName::new();
    assert_eq!(
        transitions.lookup("next-client"),
        Err(Error::TransitionNotFound { name: "next-client".to_string() })
    );
    transitions.register(
        "next-dynamic".to_string(),
        Transition::EdgePage(edge_transition(None)),
    );
    assert_eq!(
        transitions.lookup("next-Dynamic"),
        Err(Error::TransitionNotFound { name: "next-Dynamic".to_string() })
    );
}

#[test]
fn registering_again_replaces() {
    let mut transitions = TransitionsByName::new();
    let first = Transition::Context(ContextTransition {
        context: context_of(ContextKind::Client, 1),
    });
    let second = Transition::Context(ContextTransition {
        context: context_of(ContextKind::Client, 2),
    });
    transitions.register("to-client".to_string(), first);
    transitions.register("to-client".to_string(), second.clone());
    assert_eq!(transitions.lookup("to-client"), Ok(&second));
}

#[test]
fn with_transition_gives_the_rewritten_context() {
    let client = context_of(ContextKind::Client, 10);
    let server = context_of(ContextKind::ServerComponent, 20);
    let mut transitions = TransitionsByName::new();
    transitions.register(
        "next-client".to_string(),
        Transition::Context(ContextTransition { context: client.clone() }),
    );
    let context = ModuleAssetContext::new(
        transitions,
        server.compile_time_info,
        server.module_options_context.clone(),
        server.resolve_options_context.clone(),
    );
    assert_eq!(context.context, server);
    assert_eq!(context.with_transition("next-client"), Ok(client));
    assert_eq!(
        context.with_transition("next-edge"),
        Err(Error::TransitionNotFound { name: "next-edge".to_string() })
    );
}

#[test]
fn inner_assets_keep_the_order_of_first_insertion() {
    let mut assets = InnerAssets::new();
    assert_eq!(assets.len(), 0);
    assert_eq!(assets.entries(), vec![]);
    assets.insert("B".to_string(), Module { id: 2 });
    assets.insert("A".to_string(), Module { id: 1 });
    assets.insert("C".to_string(), Module { id: 3 });
    assert_eq!(assets.len(), 3);
    assert_eq!(
        assets.entries(),
        vec![
            ("B".to_string(), Module { id: 2 }),
            ("A".to_string(), Module { id: 1 }),
            ("C".to_string(), Module { id: 3 }),
        ]
    );
}

#[test]
fn inner_assets_replace_in_place() {
    let mut assets = InnerAssets::new();
    assets.insert("B".to_string(), Module { id: 2 });
    assets.insert("A".to_string(), Module { id: 1 });
    assets.insert("B".to_string(), Module { id: 20 });
    assert_eq!(assets.len(), 2);
    assert_eq!(
        assets.entries(),
        vec![("B".to_string(), Module { id: 20 }), ("A".to_string(), Module { id: 1 })]
    );
}

#[test]
fn the_bootstrap_module_is_asked_for_across_the_client_transition() {
    let server = context_of(ContextKind::ServerComponent, 20);
    let mut transitions = TransitionsByName::new();
    transitions.register(
        "next-client".to_string(),
        Transition::Context(ContextTransition { context: context_of(ContextKind::Client, 10) }),
    );
    let context = ModuleAssetContext { transitions, context: server };
    let request = edge_transition(None).bootstrap_module_request(&context).unwrap();
    assert_eq!(request.source, ProcessSource::NextJsFile("entry/app/hydrate.tsx".to_string()));
    assert_eq!(request.transition, Some("next-client".to_string()));
    assert!(matches!(request.reference_type, ReferenceType::EcmaScriptModulesUndefined));
}

#[test]
fn the_bootstrap_module_needs_the_client_transition() {
    let context = ModuleAssetContext {
        transitions: TransitionsByName::new(),
        context: context_of(ContextKind::ServerComponent, 20),
    };
    match edge_transition(None).bootstrap_module_request(&context) {
        Err(e) => assert_eq!(e, Error::TransitionNotFound { name: "next-client".to_string() }),
        Ok(_) => panic!("the request was made without the transition"),
    }
}

#[test]
fn the_wrapper_imports_the_page_and_the_bootstrap_module_by_name() {
    let request =
        edge_transition(None).wrapper_module_request(Module { id: 5 }, Module { id: 6 });
    assert_eq!(request.source, ProcessSource::Asset(Source { id: 77 }));
    assert_eq!(request.transition, None);
    match request.reference_type {
        ReferenceType::Internal(assets) => assert_eq!(
            assets.entries(),
            vec![
                ("APP_ENTRY".to_string(), Module { id: 5 }),
                ("APP_BOOTSTRAP".to_string(), Module { id: 6 }),
            ]
        ),
        ReferenceType::EcmaScriptModulesUndefined => panic!("the wrapper imports nothing"),
    }
}

#[test]
fn a_chunkable_wrapper_becomes_the_files_of_its_chunk_group() {
    let transition = edge_transition(None);
    let wrapper = ProcessedModule { module: Module { id: 12 }, chunkable: true };
    assert_eq!(
        transition.process_module(wrapper),
        Ok(ChunkGroupFilesAsset {
            module: Module { id: 12 },
            client_root: FileSystemPath::new(1, "out/edge"),
            chunking_context: ChunkingContext { id: 4 },
            runtime_entries: None,
        })
    );
}

#[test]
fn a_wrapper_that_is_not_chunkable_is_a_fault() {
    let transition = edge_transition(None);
    let wrapper = ProcessedModule { module: Module { id: 12 }, chunkable: false };
    let result = transition.process_module(wrapper);
    assert_eq!(result, Err(Error::NotChunkable));
    assert!(result.unwrap_err().is_internal_fault());
}

#[test]
fn duplicates_are_equal() {
    let edge = edge_transition(Some(context_of(ContextKind::Edge, 30).module_options_context));
    assert_eq!(edge.duplicate(), edge);
    let transition = Transition::EdgePage(edge);
    assert_eq!(transition.duplicate(), transition);
    let context = context_of(ContextKind::Client, 1);
    assert_eq!(context.duplicate(), context);
    let change = ContextTransition { context };
    assert_eq!(change.duplicate(), change);
}
