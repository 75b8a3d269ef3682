//! Handles of values that the surrounding build engine owns.
//!
//! A handle names a value by number and says nothing of what the value holds.
//! Two handles of one kind denote the same value exactly when their numbers are
//! equal.

use vstd::prelude::*;

verus! {

/// A module of the module graph.
#[derive(Clone, Copy, Debug, PartialEq, Eq, Structural)]
pub struct Module {
    pub id: u64,
}

/// A raw source, not yet bound into any context.
#[derive(Clone, Copy, Debug, PartialEq, Eq, Structural)]
pub struct Source {
    pub id: u64,
}

/// The loader tree of a page.
#[derive(Clone, Copy, Debug, PartialEq, Eq, Structural)]
pub struct LoaderTree {
    pub id: u64,
}

/// The target platform and environment flags that code is compiled against.
#[derive(Clone, Copy, Debug, PartialEq, Eq, Structural)]
pub struct CompileTimeInfo {
    pub id: u64,
}

/// The loaded project configuration.
#[derive(Clone, Copy, Debug, PartialEq, Eq, Structural)]
pub struct Config {
    pub id: u64,
}

/// A boundary at which code rendered on the server hands over to code that
/// runs on the client.
#[derive(Clone, Copy, Debug, PartialEq, Eq, Structural)]
pub struct ClientReference {
    pub id: u64,
}

/// A context in which chunks are produced.
#[derive(Clone, Copy, Debug, PartialEq, Eq, Structural)]
pub struct ChunkingContext {
    pub id: u64,
}

} // verus!
