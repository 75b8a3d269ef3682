//! Entry construction and chunk/manifest assembly for the app directory of a
//! multi-target bundler.
//!
//! The surrounding build engine owns modules, sources and chunk contents; this
//! library holds them by handle or by descriptor and decides, with proofs, how
//! routes become entries, how runtime entries resolve, how transitions rewrite
//! a context, and how chunk paths land in the manifests.
//!
//! - [`context`] builds execution contexts, [`transition`] holds the
//!   transitions between them by name, and [`page_transition`] is the
//!   transition into the edge sandbox.
//! - [`runtime_entry`] resolves references to runtime entries.
//! - [`app_entries`] makes one entry for each discovered route.
//! - [`assembly`] works out the paths of all chunks, and [`app_chunks`]
//!   records them in the manifests of [`manifest`].
//! - [`fs_path`], [`chunk`], [`handle`], [`inner_assets`] and [`error`] hold
//!   the values that these work on.

pub mod app_chunks;
pub mod app_entries;
pub mod assembly;
pub mod chunk;
pub mod context;
pub mod error;
pub mod fs_path;
pub mod handle;
pub mod inner_assets;
pub mod manifest;
pub mod page_transition;
pub mod runtime_entry;
pub mod transition;
