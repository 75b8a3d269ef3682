//! Transitions: the rules applied where a module reference crosses from one
//! execution context into another, and the table that holds them by name.

use vstd::prelude::*;
use vstd::hash_map::StringHashMap;
use vstd::string::*;
use crate::context::{ExecutionContext, ModuleOptionsContext, ResolveOptionsContext};
use crate::error::{Error, ErrorView};
use crate::handle::CompileTimeInfo;
use crate::page_transition::NextEdgePageTransition;

verus! {

/// The transition that leaves the current context for a fixed one.
#[derive(Clone, Debug, PartialEq, Eq)]
pub struct ContextTransition {
    pub context: ExecutionContext,
}

impl ContextTransition {
    /// The transition into the context made of the three parts.
    pub fn new(
        compile_time_info: CompileTimeInfo,
        module_options_context: ModuleOptionsContext,
        resolve_options_context: ResolveOptionsContext,
    ) -> (res: ContextTransition)
        ensures
            res == (ContextTransition {
                context: ExecutionContext {
                    compile_time_info,
                    module_options_context,
                    resolve_options_context,
                },
            }),
    {
        ContextTransition {
            context: ExecutionContext {
                compile_time_info,
                module_options_context,
                resolve_options_context,
            },
        }
    }

    /// A copy of this transition.
    pub fn duplicate(&self) -> (res: ContextTransition)
        ensures
            res == *self,
    {
        ContextTransition { context: self.context.duplicate() }
    }
}

/// A rule for crossing into another context. Each kind rewrites the three
/// parts of the context it is applied in, or passes them through.
#[derive(Clone, Debug, PartialEq, Eq)]
pub enum Transition {
    /// Replaces the context by a fixed one.
    Context(ContextTransition),
    /// Promotes a module to the client: the module is built once for the
    /// client and once for rendering on the server, and the context of the
    /// importing side is kept for the proxy that stands in for it.
    ClientReference { client_transition: ContextTransition, ssr_transition: ContextTransition },
    /// A dynamic import boundary: what lies behind it is built for the client.
    Dynamic { client_transition: ContextTransition },
    /// Wraps a page for the edge sandbox.
    EdgePage(NextEdgePageTransition),
}

/// The compile-time information after `transition` was applied.
pub open spec fn rewritten_compile_time_info(
    transition: Transition,
    compile_time_info: CompileTimeInfo,
) -> CompileTimeInfo {
    match transition {
        Transition::Context(t) => t.context.compile_time_info,
        Transition::ClientReference { .. } => compile_time_info,
        Transition::Dynamic { client_transition } => client_transition.context.compile_time_info,
        Transition::EdgePage(t) => t.edge_compile_time_info,
    }
}

/// The module options after `transition` was applied.
pub open spec fn rewritten_module_options(
    transition: Transition,
    context: ModuleOptionsContext,
) -> ModuleOptionsContext {
    match transition {
        Transition::Context(t) => t.context.module_options_context,
        Transition::ClientReference { .. } => context,
        Transition::Dynamic { client_transition } => {
            client_transition.context.module_options_context
        },
        Transition::EdgePage(t) => match t.edge_module_options_context {
            Some(edge) => edge,
            None => context,
        },
    }
}

/// The resolve options after `transition` was applied.
pub open spec fn rewritten_resolve_options(
    transition: Transition,
    context: ResolveOptionsContext,
) -> ResolveOptionsContext {
    match transition {
        Transition::Context(t) => t.context.resolve_options_context,
        Transition::ClientReference { .. } => context,
        Transition::Dynamic { client_transition } => {
            client_transition.context.resolve_options_context
        },
        Transition::EdgePage(t) => t.edge_resolve_options_context,
    }
}

/// The context that a walk is in after it crossed `transition` from `context`.
pub open spec fn rewritten_context(transition: Transition, context: ExecutionContext)
    -> ExecutionContext {
    ExecutionContext {
        compile_time_info: rewritten_compile_time_info(transition, context.compile_time_info),
        module_options_context: rewritten_module_options(
            transition,
            context.module_options_context,
        ),
        resolve_options_context: rewritten_resolve_options(
            transition,
            context.resolve_options_context,
        ),
    }
}

impl Transition {
    /// A copy of this transition.
    pub fn duplicate(&self) -> (res: Transition)
        ensures
            res == *self,
    {
        match self {
            Transition::Context(t) => Transition::Context(t.duplicate()),
            Transition::ClientReference { client_transition, ssr_transition } => {
                Transition::ClientReference {
                    client_transition: client_transition.duplicate(),
                    ssr_transition: ssr_transition.duplicate(),
                }
            },
            Transition::Dynamic { client_transition } => {
                Transition::Dynamic { client_transition: client_transition.duplicate() }
            },
            Transition::EdgePage(t) => Transition::EdgePage(t.duplicate()),
        }
    }

    /// Rewrites the compile-time information of the context that is left.
    pub fn process_compile_time_info(&self, compile_time_info: CompileTimeInfo) -> (res:
        CompileTimeInfo)
        ensures
            res == rewritten_compile_time_info(*self, compile_time_info),
    {
        match self {
            Transition::Context(t) => t.context.compile_time_info,
            Transition::ClientReference { .. } => compile_time_info,
            Transition::Dynamic { client_transition } => {
                client_transition.context.compile_time_info
            },
            Transition::EdgePage(t) => t.process_compile_time_info(compile_time_info),
        }
    }

    /// Rewrites the module options of the context that is left.
    pub fn process_module_options_context(&self, context: ModuleOptionsContext) -> (res:
        ModuleOptionsContext)
        ensures
            res == rewritten_module_options(*self, context),
    {
        match self {
            Transition::Context(t) => t.context.module_options_context.duplicate(),
            Transition::ClientReference { .. } => context,
            Transition::Dynamic { client_transition } => {
                client_transition.context.module_options_context.duplicate()
            },
            Transition::EdgePage(t) => t.process_module_options_context(context),
        }
    }

    /// Rewrites the resolve options of the context that is left.
    pub fn process_resolve_options_context(&self, context: ResolveOptionsContext) -> (res:
        ResolveOptionsContext)
        ensures
            res == rewritten_resolve_options(*self, context),
    {
        match self {
            Transition::Context(t) => t.context.resolve_options_context.duplicate(),
            Transition::ClientReference { .. } => context,
            Transition::Dynamic { client_transition } => {
                client_transition.context.resolve_options_context.duplicate()
            },
            Transition::EdgePage(t) => t.process_resolve_options_context(context),
        }
    }

    /// The context on the far side of the transition: each of the three parts
    /// of `context` rewritten in turn.
    pub fn process_context(&self, context: ExecutionContext) -> (res: ExecutionContext)
        ensures
            res == rewritten_context(*self, context),
    {
        let compile_time_info = self.process_compile_time_info(context.compile_time_info);
        let module_options_context = self.process_module_options_context(
            context.module_options_context,
        );
        let resolve_options_context = self.process_resolve_options_context(
            context.resolve_options_context,
        );
        ExecutionContext { compile_time_info, module_options_context, resolve_options_context }
    }
}

/// The table of transitions, keyed by name.
pub struct TransitionsByName {
    table: StringHashMap<Transition>,
}

impl View for TransitionsByName {
    type V = Map<Seq<char>, Transition>;

    closed spec fn view(&self) -> Map<Seq<char>, Transition> {
        self.table@
    }
}

impl TransitionsByName {
    /// The table without any transition.
    pub fn new() -> (res: TransitionsByName)
        ensures
            res@ == Map::<Seq<char>, Transition>::empty(),
    {
        TransitionsByName { table: StringHashMap::new() }
    }

    /// Puts `transition` under `name`, in place of what was there.
    pub fn register(&mut self, name: String, transition: Transition)
        ensures
            final(self)@ == old(self)@.insert(name@, transition),
    {
        self.table.insert(name, transition);
    }

    /// Whether a transition is registered under `name`.
    pub fn contains(&self, name: &str) -> (res: bool)
        ensures
            res == self@.contains_key(name@),
    {
        self.table.contains_key(name)
    }

    /// The transition registered under `name`.
    pub fn lookup(&self, name: &str) -> (res: Result<&Transition, Error>)
        ensures
            match res {
                Ok(transition) => self@.contains_key(name@) && *transition == self@[name@],
                Err(e) => !self@.contains_key(name@) && e@ == (ErrorView::TransitionNotFound {
                    name: name@,
                }),
            },
    {
        match self.table.get(name) {
            Some(transition) => Ok(transition),
            None => Err(Error::TransitionNotFound { name: String::from_str(name) }),
        }
    }
}

/// An execution context together with the transitions that a walk of the
/// module graph may cross from it.
pub struct ModuleAssetContext {
    pub transitions: TransitionsByName,
    pub context: ExecutionContext,
}

impl ModuleAssetContext {
    /// The context made of a table of transitions and the three parts of an
    /// execution context.
    pub fn new(
        transitions: TransitionsByName,
        compile_time_info: CompileTimeInfo,
        module_options_context: ModuleOptionsContext,
        resolve_options_context: ResolveOptionsContext,
    ) -> (res: ModuleAssetContext)
        ensures
            res.transitions == transitions,
            res.context == (ExecutionContext {
                compile_time_info,
                module_options_context,
                resolve_options_context,
            }),
    {
        ModuleAssetContext {
            transitions,
            context: ExecutionContext {
                compile_time_info,
                module_options_context,
                resolve_options_context,
            },
        }
    }

    /// The execution context that a walk is in after it crossed the transition
    /// named `name` from this context.
    pub fn with_transition(&self, name: &str) -> (res: Result<ExecutionContext, Error>)
        ensures
            match res {
                Ok(context) => self.transitions@.contains_key(name@) && context
                    == rewritten_context(self.transitions@[name@], self.context),
                Err(e) => !self.transitions@.contains_key(name@) && e@ == (
                ErrorView::TransitionNotFound { name: name@ }),
            },
    {
        match self.transitions.lookup(name) {
            Ok(transition) => Ok(transition.process_context(self.context.duplicate())),
            Err(e) => Err(e),
        }
    }
}

} // verus!
