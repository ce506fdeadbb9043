use sage_wiki_bridge::archive::{sha256_hex, ProcessedArtifactStore, RawArchive};
use sage_wiki_bridge::error::BridgeError;

#[test]
fn raw_archive_metadata_only_hashes_without_writing() {
    let archive = RawArchive::new("/tmp/raw", false);

    let record = archive.archive_bytes("msg_1", "callback.xml", b"<xml />").unwrap();

    assert!(record.path.is_none());
    assert_eq!(record.size_bytes, 7);
    assert_eq!(record.sha256.len(), 64);
}

#[test]
fn raw_archive_full_mode_names_the_payload_path() {
    let archive = RawArchive::new("/tmp/raw", true);

    let record = archive.archive_bytes("msg 1", "callback.xml", b"<xml />").unwrap();

    assert_eq!(record.path.as_deref(), Some("/tmp/raw/msg_1/callback.xml"));
    assert_eq!(record.sha256, sha256_hex(b"<xml />"));
}

#[test]
fn rejects_path_escape_segments() {
    let store = ProcessedArtifactStore::new("/tmp/processed");

    let err = store.save_artifact("../secret", "source.md", b"bad").unwrap_err();

    assert!(matches!(err, BridgeError::PathOutsideRoot(_)));
}

#[test]
fn sha256_hex_of_abc() {
    assert_eq!(
        sha256_hex(b"abc"),
        "ba7816bf8f01cfea414140de5dae2223b00361a396177a9cb410ff61f20015ad"
    );
}
