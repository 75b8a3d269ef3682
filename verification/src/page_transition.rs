//! The transition that takes a page of the app directory into the edge
//! sandbox.

use vstd::prelude::*;
use vstd::string::*;
use crate::context::{ModuleOptionsContext, ResolveOptionsContext};
use crate::error::{Error, ErrorView};
use crate::fs_path::FileSystemPath;
use crate::handle::{ChunkingContext, CompileTimeInfo, Module, Source};
use crate::inner_assets::{name_index, InnerAssets};
use crate::runtime_entry::EvaluatableAsset;
use crate::transition::ModuleAssetContext;

verus! {

/// What the module engine is asked to turn into a module.
#[derive(Clone, Debug, PartialEq, Eq)]
pub enum ProcessSource {
    /// A source that the engine holds.
    Asset(Source),
    /// A file that ships with the framework, by its path among those files.
    NextJsFile(String),
}

/// What a [`ProcessSource`] denotes.
pub enum ProcessSourceView {
    Asset(Source),
    NextJsFile(Seq<char>),
}

impl View for ProcessSource {
    type V = ProcessSourceView;

    open spec fn view(&self) -> ProcessSourceView {
        match self {
            ProcessSource::Asset(source) => ProcessSourceView::Asset(*source),
            ProcessSource::NextJsFile(path) => ProcessSourceView::NextJsFile(path@),
        }
    }
}

/// How the module that is asked for will be referred to.
pub enum ReferenceType {
    /// By an import of an ECMAScript module, of no particular kind.
    EcmaScriptModulesUndefined,
    /// From inside the pipeline, with modules that it imports by name.
    Internal(InnerAssets),
}

/// What a [`ReferenceType`] denotes.
pub enum ReferenceTypeView {
    EcmaScriptModulesUndefined,
    Internal(Seq<(Seq<char>, Module)>),
}

impl View for ReferenceType {
    type V = ReferenceTypeView;

    open spec fn view(&self) -> ReferenceTypeView {
        match self {
            ReferenceType::EcmaScriptModulesUndefined => {
                ReferenceTypeView::EcmaScriptModulesUndefined
            },
            ReferenceType::Internal(assets) => ReferenceTypeView::Internal(assets@),
        }
    }
}

/// A request to the module engine: turn `source` into a module of the context
/// at hand, after crossing the transition named, if one is.
pub struct ProcessRequest {
    pub source: ProcessSource,
    pub transition: Option<String>,
    pub reference_type: ReferenceType,
}

/// What a [`ProcessRequest`] denotes.
pub struct ProcessRequestView {
    pub source: ProcessSourceView,
    pub transition: Option<Seq<char>>,
    pub reference_type: ReferenceTypeView,
}

impl View for ProcessRequest {
    type V = ProcessRequestView;

    open spec fn view(&self) -> ProcessRequestView {
        ProcessRequestView {
            source: self.source@,
            transition: match self.transition {
                Some(name) => Some(name@),
                None => None,
            },
            reference_type: self.reference_type@,
        }
    }
}

/// The module engine's answer to a [`ProcessRequest`].
#[derive(Clone, Copy, Debug, PartialEq, Eq, Structural)]
pub struct ProcessedModule {
    /// The module that was made.
    pub module: Module,
    /// Whether it can be put into a chunk.
    pub chunkable: bool,
}

/// The asset that stands for the files of the chunk group of a module.
#[derive(Clone, Debug, PartialEq, Eq)]
pub struct ChunkGroupFilesAsset {
    pub module: Module,
    pub client_root: FileSystemPath,
    pub chunking_context: ChunkingContext,
    pub runtime_entries: Option<Vec<EvaluatableAsset>>,
}

/// Transition into the edge environment to render a page of the app
/// directory.
///
/// It changes the environment to the given edge environment and wraps the
/// processed module in the given bootstrap source, so that the chunks of all
/// of it can run in the edge sandbox.
#[derive(Clone, Debug, PartialEq, Eq)]
pub struct NextEdgePageTransition {
    pub edge_compile_time_info: CompileTimeInfo,
    pub edge_chunking_context: ChunkingContext,
    pub edge_module_options_context: Option<ModuleOptionsContext>,
    pub edge_resolve_options_context: ResolveOptionsContext,
    pub output_path: FileSystemPath,
    pub bootstrap_asset: Source,
}

/// The name under which the wrapper imports the page.
pub open spec fn app_entry_name() -> Seq<char> {
    "APP_ENTRY"@
}

/// The name under which the wrapper imports the module that hydrates the
/// page.
pub open spec fn app_bootstrap_name() -> Seq<char> {
    "APP_BOOTSTRAP"@
}

/// The name of the transition into the client context.
pub open spec fn client_transition_name() -> Seq<char> {
    "next-client"@
}

/// The framework file that hydrates a page of the app directory.
pub open spec fn hydrate_file() -> Seq<char> {
    "entry/app/hydrate.tsx"@
}

/// The request for the module that hydrates the page.
pub open spec fn bootstrap_request() -> ProcessRequestView {
    ProcessRequestView {
        source: ProcessSourceView::NextJsFile(hydrate_file()),
        transition: Some(client_transition_name()),
        reference_type: ReferenceTypeView::EcmaScriptModulesUndefined,
    }
}

/// The request for the wrapper of the page `asset`, hydrated by `bootstrap`.
pub open spec fn wrapper_request(bootstrap_asset: Source, asset: Module, bootstrap: Module)
    -> ProcessRequestView {
    ProcessRequestView {
        source: ProcessSourceView::Asset(bootstrap_asset),
        transition: None,
        reference_type: ReferenceTypeView::Internal(
            seq![(app_entry_name(), asset), (app_bootstrap_name(), bootstrap)],
        ),
    }
}

impl NextEdgePageTransition {
    /// A copy of this transition.
    pub fn duplicate(&self) -> (res: NextEdgePageTransition)
        ensures
            res == *self,
    {
        NextEdgePageTransition {
            edge_compile_time_info: self.edge_compile_time_info,
            edge_chunking_context: self.edge_chunking_context,
            edge_module_options_context: match &self.edge_module_options_context {
                Some(context) => Some(context.duplicate()),
                None => None,
            },
            edge_resolve_options_context: self.edge_resolve_options_context.duplicate(),
            output_path: self.output_path.duplicate(),
            bootstrap_asset: self.bootstrap_asset,
        }
    }

    /// The compile-time information of the edge environment, whatever the
    /// context was compiled against before.
    pub fn process_compile_time_info(&self, _compile_time_info: CompileTimeInfo) -> (res:
        CompileTimeInfo)
        ensures
            res == self.edge_compile_time_info,
    {
        self.edge_compile_time_info
    }

    /// The module options of the edge environment where the transition has
    /// any, else those of the context that is left.
    pub fn process_module_options_context(&self, context: ModuleOptionsContext) -> (res:
        ModuleOptionsContext)
        ensures
            res == match self.edge_module_options_context {
                Some(edge) => edge,
                None => context,
            },
    {
        match &self.edge_module_options_context {
            Some(edge) => edge.duplicate(),
            None => context,
        }
    }

    /// The resolve options of the edge environment, whatever the context
    /// resolved by before.
    pub fn process_resolve_options_context(&self, _context: ResolveOptionsContext) -> (res:
        ResolveOptionsContext)
        ensures
            res == self.edge_resolve_options_context,
    {
        self.edge_resolve_options_context.duplicate()
    }

    /// First step of wrapping a page: the request for the module that
    /// hydrates it, to be built across the transition into the client. Fails
    /// where `context` has no such transition.
    pub fn bootstrap_module_request(&self, context: &ModuleAssetContext) -> (res: Result<
        ProcessRequest,
        Error,
    >)
        ensures
            match res {
                Ok(request) => context.transitions@.contains_key(client_transition_name())
                    && request@ == bootstrap_request(),
                Err(e) => !context.transitions@.contains_key(client_transition_name()) && e@ == (
                ErrorView::TransitionNotFound { name: client_transition_name() }),
            },
    {
        if context.transitions.contains("next-client") {
            Ok(
                ProcessRequest {
                    source: ProcessSource::NextJsFile(String::from_str("entry/app/hydrate.tsx")),
                    transition: Some(String::from_str("next-client")),
                    reference_type: ReferenceType::EcmaScriptModulesUndefined,
                },
            )
        } else {
            Err(Error::TransitionNotFound { name: String::from_str("next-client") })
        }
    }

    /// Second step: the request for the wrapper itself. The wrapper is built
    /// from the bootstrap source of the transition and imports two modules by
    /// name: the page `asset`, and the module `bootstrap` that the first step
    /// asked for.
    pub fn wrapper_module_request(&self, asset: Module, bootstrap: Module) -> (res:
        ProcessRequest)
        ensures
            res@ == wrapper_request(self.bootstrap_asset, asset, bootstrap),
    {
        let mut inner_assets = InnerAssets::new();
        inner_assets.insert(String::from_str("APP_ENTRY"), asset);
        inner_assets.insert(String::from_str("APP_BOOTSTRAP"), bootstrap);
        proof {
            reveal_strlit("APP_ENTRY");
            reveal_strlit("APP_BOOTSTRAP");
            let first = seq![(app_entry_name(), asset)];
            assert(name_index(first.drop_last(), app_bootstrap_name())
                is None);
            assert(app_entry_name().len() != app_bootstrap_name().len());
            assert(inner_assets@ =~= seq![
                (app_entry_name(), asset),
                (app_bootstrap_name(), bootstrap),
            ]);
        }
        ProcessRequest {
            source: ProcessSource::Asset(self.bootstrap_asset),
            transition: None,
            reference_type: ReferenceType::Internal(inner_assets),
        }
    }

    /// Last step: what the page has become. The wrapper that the engine built
    /// must be fit for a chunk; then the page is the asset that lists the
    /// files of the wrapper's chunk group, made in the edge chunking context
    /// below the output path.
    pub fn process_module(&self, wrapper: ProcessedModule) -> (res: Result<
        ChunkGroupFilesAsset,
        Error,
    >)
        ensures
            match res {
                Ok(asset) => wrapper.chunkable && asset == (ChunkGroupFilesAsset {
                    module: wrapper.module,
                    client_root: self.output_path,
                    chunking_context: self.edge_chunking_context,
                    runtime_entries: None,
                }),
                Err(e) => !wrapper.chunkable && e@ == ErrorView::NotChunkable,
            },
    {
        if !wrapper.chunkable {
            return Err(Error::NotChunkable);
        }
        Ok(
            ChunkGroupFilesAsset {
                module: wrapper.module,
                client_root: self.output_path.duplicate(),
                chunking_context: self.edge_chunking_context,
                runtime_entries: None,
            },
        )
    }
}

} // verus!
