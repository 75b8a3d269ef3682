//! Execution contexts: the environments that a module can be compiled for, each
//! with its own compile and resolve rules.

use vstd::prelude::*;
use crate::fs_path::FileSystemPath;
use crate::handle::{CompileTimeInfo, Config};

verus! {

/// The environments that code of an app runs in.
#[derive(Clone, Copy, Debug, PartialEq, Eq, Structural)]
pub enum ContextKind {
    /// The browser, where components are hydrated.
    Client,
    /// The server, rendering server components.
    ServerComponent,
    /// The server, rendering client components to markup.
    ServerSideRender,
    /// The edge sandbox.
    Edge,
}

/// What a build is made for.
#[derive(Clone, Copy, Debug, PartialEq, Eq, Structural)]
pub enum Mode {
    Build,
    Development,
}

/// The options that decide how the modules of a context are compiled.
///
/// A value of this type is a descriptor: it records what the options derive
/// from.
#[derive(Clone, Debug, PartialEq, Eq)]
pub struct ModuleOptionsContext {
    pub kind: ContextKind,
    pub project_root: FileSystemPath,
    pub mode: Mode,
    pub config: Config,
}

/// The options that decide how imports are resolved within a context.
///
/// A value of this type is a descriptor: it records what the options derive
/// from.
#[derive(Clone, Debug, PartialEq, Eq)]
pub struct ResolveOptionsContext {
    pub kind: ContextKind,
    pub project_root: FileSystemPath,
    pub mode: Mode,
    pub config: Config,
}

impl ModuleOptionsContext {
    /// A copy of these options.
    pub fn duplicate(&self) -> (res: ModuleOptionsContext)
        ensures
            res == *self,
    {
        ModuleOptionsContext {
            kind: self.kind,
            project_root: self.project_root.duplicate(),
            mode: self.mode,
            config: self.config,
        }
    }
}

impl ResolveOptionsContext {
    /// A copy of these options.
    pub fn duplicate(&self) -> (res: ResolveOptionsContext)
        ensures
            res == *self,
    {
        ResolveOptionsContext {
            kind: self.kind,
            project_root: self.project_root.duplicate(),
            mode: self.mode,
            config: self.config,
        }
    }
}

/// An execution context: compile-time information with the module options and
/// the resolve options that go with it. It never changes once built, and all
/// routes of a build share it.
#[derive(Clone, Debug, PartialEq, Eq)]
pub struct ExecutionContext {
    pub compile_time_info: CompileTimeInfo,
    pub module_options_context: ModuleOptionsContext,
    pub resolve_options_context: ResolveOptionsContext,
}

/// The context of the given kind for a project: both sets of options derive
/// from the same four inputs. The engine computes the options themselves, once
/// for each distinct descriptor.
pub open spec fn built_context(
    kind: ContextKind,
    project_root: FileSystemPath,
    mode: Mode,
    config: Config,
    compile_time_info: CompileTimeInfo,
) -> ExecutionContext {
    ExecutionContext {
        compile_time_info,
        module_options_context: ModuleOptionsContext { kind, project_root, mode, config },
        resolve_options_context: ResolveOptionsContext { kind, project_root, mode, config },
    }
}

/// Builds the execution context of the given kind. The result depends on the
/// arguments alone, so a second call with the same arguments may be answered
/// from a cache.
pub fn build_context(
    kind: ContextKind,
    project_root: &FileSystemPath,
    mode: Mode,
    config: Config,
    compile_time_info: CompileTimeInfo,
) -> (res: ExecutionContext)
    ensures
        res == built_context(kind, *project_root, mode, config, compile_time_info),
{
    ExecutionContext {
        compile_time_info,
        module_options_context: ModuleOptionsContext {
            kind,
            project_root: project_root.duplicate(),
            mode,
            config,
        },
        resolve_options_context: ResolveOptionsContext {
            kind,
            project_root: project_root.duplicate(),
            mode,
            config,
        },
    }
}

impl ExecutionContext {
    /// The environment that this context compiles for.
    pub open spec fn spec_kind(&self) -> ContextKind {
        self.module_options_context.kind
    }

    /// The environment that this context compiles for.
    #[verifier::when_used_as_spec(spec_kind)]
    pub fn kind(&self) -> (res: ContextKind)
        ensures
            res == self.spec_kind(),
    {
        self.module_options_context.kind
    }

    /// A copy of this context.
    pub fn duplicate(&self) -> (res: ExecutionContext)
        ensures
            res == *self,
    {
        ExecutionContext {
            compile_time_info: self.compile_time_info,
            module_options_context: self.module_options_context.duplicate(),
            resolve_options_context: self.resolve_options_context.duplicate(),
        }
    }
}

} // verus!
