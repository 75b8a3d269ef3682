//! What can go wrong while entries are resolved and chunks are assembled.

use vstd::prelude::*;
use vstd::string::*;
use crate::fs_path::{FileSystemPath, PathView};
use crate::handle::ClientReference;

verus! {

/// The two classes of failure. They are disjoint: every [`Error`] is of
/// exactly one.
#[derive(Clone, Copy, Debug, PartialEq, Eq, Structural)]
pub enum ErrorClass {
    /// A mistake in the project that is built; reported to its author.
    BuildBreaking,
    /// A broken invariant of the pipeline itself; fatal for the build.
    InternalFault,
}

/// A failure of the pipeline.
#[derive(Clone, Debug, PartialEq, Eq)]
pub enum Error {
    /// A runtime entry resolved to the module `ident`, which cannot be
    /// evaluated.
    NotEvaluatable { ident: String },
    /// No transition is registered under `name`.
    TransitionNotFound { name: String },
    /// A module wrapped by a transition cannot be put into a chunk.
    NotChunkable,
    /// A client reference of the graph has no chunks recorded for it.
    MissingClientReferenceChunks { reference: ClientReference },
    /// A client chunk lies outside the client root.
    OutsideClientRoot { path: FileSystemPath },
    /// A server-component chunk lies outside the directory of the app paths
    /// manifest.
    OutsideAppPathsManifestDir { path: FileSystemPath },
}

/// What an [`Error`] denotes.
pub enum ErrorView {
    NotEvaluatable { ident: Seq<char> },
    TransitionNotFound { name: Seq<char> },
    NotChunkable,
    MissingClientReferenceChunks { reference: ClientReference },
    OutsideClientRoot { path: PathView },
    OutsideAppPathsManifestDir { path: PathView },
}

impl View for Error {
    type V = ErrorView;

    open spec fn view(&self) -> ErrorView {
        match self {
            Error::NotEvaluatable { ident } => ErrorView::NotEvaluatable { ident: ident@ },
            Error::TransitionNotFound { name } => ErrorView::TransitionNotFound { name: name@ },
            Error::NotChunkable => ErrorView::NotChunkable,
            Error::MissingClientReferenceChunks { reference } => {
                ErrorView::MissingClientReferenceChunks { reference: *reference }
            },
            Error::OutsideClientRoot { path } => ErrorView::OutsideClientRoot { path: path@ },
            Error::OutsideAppPathsManifestDir { path } => {
                ErrorView::OutsideAppPathsManifestDir { path: path@ }
            },
        }
    }
}

/// The class of each failure: only a runtime entry that cannot be evaluated
/// stems from the project; the others are faults of the pipeline.
pub open spec fn class_of(e: ErrorView) -> ErrorClass {
    match e {
        ErrorView::NotEvaluatable { .. } => ErrorClass::BuildBreaking,
        _ => ErrorClass::InternalFault,
    }
}

/// The text that reports a failure.
pub open spec fn message_of(e: ErrorView) -> Seq<char> {
    match e {
        ErrorView::NotEvaluatable { ident } => {
            "runtime reference resolved to an asset ("@ + ident
                + ") that cannot be evaluated"@
        },
        ErrorView::TransitionNotFound { name } => "no transition is registered as "@ + name,
        ErrorView::NotChunkable => "Internal module is not chunkable"@,
        ErrorView::MissingClientReferenceChunks { .. } => {
            "client reference should have corresponding chunks"@
        },
        ErrorView::OutsideClientRoot { path } => {
            "asset path should be inside client root: "@ + path.path
        },
        ErrorView::OutsideAppPathsManifestDir { path } => {
            "RSC chunk path should be within app paths manifest directory: "@ + path.path
        },
    }
}

impl Error {
    /// Whether the failure is a mistake of the project or a fault of the
    /// pipeline.
    pub fn class(&self) -> (res: ErrorClass)
        ensures
            res == class_of(self@),
    {
        match self {
            Error::NotEvaluatable { .. } => ErrorClass::BuildBreaking,
            _ => ErrorClass::InternalFault,
        }
    }

    /// Whether the failure is a fault of the pipeline.
    pub fn is_internal_fault(&self) -> (res: bool)
        ensures
            res == (class_of(self@) == ErrorClass::InternalFault),
    {
        match self {
            Error::NotEvaluatable { .. } => false,
            _ => true,
        }
    }

    /// The text that reports the failure, with the module or path it is about.
    pub fn message(&self) -> (res: String)
        ensures
            res@ == message_of(self@),
    {
        match self {
            Error::NotEvaluatable { ident } => {
                let mut text = String::from_str("runtime reference resolved to an asset (");
                text.append(ident.as_str());
                text.append(") that cannot be evaluated");
                text
            },
            Error::TransitionNotFound { name } => {
                let mut text = String::from_str("no transition is registered as ");
                text.append(name.as_str());
                text
            },
            Error::NotChunkable => String::from_str("Internal module is not chunkable"),
            Error::MissingClientReferenceChunks { .. } => {
                String::from_str("client reference should have corresponding chunks")
            },
            Error::OutsideClientRoot { path } => {
                let mut text = String::from_str("asset path should be inside client root: ");
                text.append(path.path.as_str());
                text
            },
            Error::OutsideAppPathsManifestDir { path } => {
                let mut text = String::from_str(
                    "RSC chunk path should be within app paths manifest directory: ",
                );
                text.append(path.path.as_str());
                text
            },
        }
    }
}

} // verus!
