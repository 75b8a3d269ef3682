use next_app_entries::error::{Error, ErrorClass};
use next_app_entries::fs_path::FileSystemPath;
use next_app_entries::handle::ClientReference;

#[test]
fn only_an_unevaluatable_runtime_entry_breaks_the_build() {
    let build_breaking = Error::NotEvaluatable { ident: "[project]/a.css".to_string() };
    assert_eq!(build_breaking.class(), ErrorClass::BuildBreaking);
    assert!(!build_breaking.is_internal_fault());

    let faults = vec![
        Error::TransitionNotFound { name: "next-client".to_string() },
        Error::NotChunkable,
        Error::MissingClientReferenceChunks { reference: ClientReference { id: 3 } },
        Error::OutsideClientRoot { path: FileSystemPath::new(1, "elsewhere/a.js") },
        Error::OutsideAppPathsManifestDir { path: FileSystemPath::new(1, "out/server/app/a.js") },
    ];
    for fault in faults {
        assert_eq!(fault.class(), ErrorClass::InternalFault);
        assert!(fault.is_internal_fault());
    }
}

#[test]
fn message_names_the_module_that_cannot_be_evaluated() {
    let e = Error::NotEvaluatable { ident: "[project]/styles/a.css".to_string() };
    assert_eq!(
        e.message(),
        "runtime reference resolved to an asset ([project]/styles/a.css) that cannot be evaluated"
    );
}

#[test]
fn message_of_a_module_that_is_not_chunkable() {
    assert_eq!(Error::NotChunkable.message(), "Internal module is not chunkable");
}

#[test]
fn message_names_the_transition_that_is_missing() {
    let e = Error::TransitionNotFound { name: "next-client".to_string() };
    assert_eq!(e.message(), "no transition is registered as next-client");
}

#[test]
fn message_of_a_reference_without_chunks() {
    let e = Error::MissingClientReferenceChunks { reference: ClientReference { id: 9 } };
    assert_eq!(e.message(), "client reference should have corresponding chunks");
}

#[test]
fn messages_of_stray_chunks_name_the_path() {
    let client = Error::OutsideClientRoot { path: FileSystemPath::new(1, "elsewhere/a.js") };
    assert_eq!(client.message(), "asset path should be inside client root: elsewhere/a.js");
    let rsc = Error::OutsideAppPathsManifestDir {
        path: FileSystemPath::new(1, "out/server/app/a.js"),
    };
    assert_eq!(
        rsc.message(),
        "RSC chunk path should be within app paths manifest directory: out/server/app/a.js"
    );
}
