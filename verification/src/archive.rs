//! Archives of raw payloads and processed artifacts: where each payload is
//! kept under its root, with its SHA-256 digest and size.
//!
//! The library decides the record; writing the bytes to the record's path is
//! left to the caller.
use vstd::prelude::*;

use crate::digest::sha256_digest;
use crate::error::{BridgeError, ErrorView};
use crate::source::{join_path, sanitize_segment};
use crate::text::{hex_lower, push_str, string_from};

verus! {

/// What was archived of a payload: where it is kept (if it is kept), its
/// SHA-256 digest in lower-case hexadecimal and its size in bytes.
#[derive(Debug, Clone, PartialEq, Eq)]
pub struct ArchiveRecord {
    pub path: Option<String>,
    pub sha256: String,
    pub size_bytes: u64,
}

/// The archive of raw payloads; in metadata-only mode payloads are hashed
/// and measured but not kept.
#[derive(Debug, Clone)]
pub struct RawArchive {
    root: String,
    save_full_payload: bool,
}

/// The store of processed artifacts, which always keeps the payload.
#[derive(Debug, Clone)]
pub struct ProcessedArtifactStore {
    root: String,
}

/// The lower-case hexadecimal SHA-256 digest of a payload.
pub open spec fn sha256_hex_spec(bytes: Seq<u8>) -> Seq<char> {
    crate::text::hex_spec(crate::digest::sha256_spec(bytes))
}

/// The path of a payload relative to the root: the sanitized message key,
/// then the sanitized file name.
pub open spec fn relative_path_spec(message_key: Seq<char>, filename: Seq<char>) -> Result<Seq<char>, ErrorView> {
    match crate::source::sanitize_segment_spec(message_key) {
        Err(e) => Err(e),
        Ok(key) => match crate::source::sanitize_segment_spec(filename) {
            Err(e) => Err(e),
            Ok(name) => Ok(key + "/"@ + name),
        },
    }
}

/// The record of a payload kept under `root`: its path is the root joined
/// with the payload's relative path, with its digest and size.
pub open spec fn kept_record(root: Seq<char>, message_key: Seq<char>, filename: Seq<char>, bytes: Seq<u8>, r: ArchiveRecord) -> bool {
    &&& relative_path_spec(message_key, filename) is Ok
    &&& r.path matches Some(p) && p@ == crate::source::join_spec(
        root,
        relative_path_spec(message_key, filename)->Ok_0,
    )
    &&& r.sha256@ == sha256_hex_spec(bytes)
    &&& r.size_bytes == bytes.len()
}

/// A sanitized path segment cannot step out of its directory: it is not
/// empty, not `.` or `..`, and holds no `/` or `\`.
pub proof fn lemma_sanitized_segment_stays(s: Seq<char>)
    requires
        crate::source::sanitize_segment_spec(s) is Ok,
    ensures
        ({
            let t = crate::source::sanitize_segment_spec(s)->Ok_0;
            &&& t.len() > 0
            &&& t != "."@
            &&& t != ".."@
            &&& !crate::text::has_char(t, '/')
            &&& !crate::text::has_char(t, '\\')
        }),
{
    reveal_strlit(".");
    reveal_strlit("..");
    let t = crate::source::sanitized_chars(s);
    assert(t.len() == s.len());
    assert forall|i: int| 0 <= i < t.len() && #[trigger] t[i] == '.' implies s[i] == '.' by {}
    if t == "."@ {
        assert(t[0] == '.');
        assert(s =~= "."@);
    }
    if t == ".."@ {
        assert(t[0] == '.' && t[1] == '.');
        assert(s =~= ".."@);
    }
    if crate::text::has_char(t, '/') {
        let i = choose|i: int| 0 <= i < t.len() && t[i] == '/';
        assert(t[i] == '/');
    }
    if crate::text::has_char(t, '\\') {
        let i = choose|i: int| 0 <= i < t.len() && t[i] == '\\';
        assert(t[i] == '\\');
    }
}

/// The lower-case hexadecimal SHA-256 digest of a payload.
pub fn sha256_hex(bytes: &[u8]) -> (r: String)
    ensures
        r@ == sha256_hex_spec(bytes@),
{
    let d = sha256_digest(bytes);
    hex_lower(d.as_slice())
}

/// The relative path of a payload (see `relative_path_spec`).
pub fn safe_relative_path(message_key: &str, filename: &str) -> (r: Result<String, BridgeError>)
    ensures
        match r {
            Ok(p) => relative_path_spec(message_key@, filename@) == Ok::<Seq<char>, ErrorView>(p@),
            Err(e) => relative_path_spec(message_key@, filename@) == Err::<Seq<char>, ErrorView>(e@),
        },
{
    let key = sanitize_segment(message_key)?;
    let name = sanitize_segment(filename)?;
    let mut p = string_from(key.as_str());
    push_str(&mut p, "/");
    push_str(&mut p, name.as_str());
    Ok(p)
}

fn kept(root: &str, message_key: &str, filename: &str, bytes: &[u8]) -> (r: Result<ArchiveRecord, BridgeError>)
    ensures
        match r {
            Ok(rec) => kept_record(root@, message_key@, filename@, bytes@, rec),
            Err(e) => relative_path_spec(message_key@, filename@) == Err::<Seq<char>, ErrorView>(e@),
        },
{
    let rel = safe_relative_path(message_key, filename)?;
    let path = join_path(root, rel.as_str());
    Ok(ArchiveRecord { path: Some(path), sha256: sha256_hex(bytes), size_bytes: bytes.len() as u64 })
}

impl RawArchive {
    /// The directory payloads are kept under.
    pub closed spec fn root_spec(&self) -> Seq<char> {
        self.root@
    }

    /// Whether payloads are kept, not only hashed.
    pub closed spec fn keeps_payloads(&self) -> bool {
        self.save_full_payload
    }

    /// An archive under `root`, keeping payloads when `save_full_payload` holds.
    pub fn new(root: &str, save_full_payload: bool) -> (r: RawArchive)
        ensures
            r.root_spec() == root@,
            r.keeps_payloads() == save_full_payload,
    {
        RawArchive { root: string_from(root), save_full_payload }
    }

    /// The record of archiving a payload: in metadata-only mode no path,
    /// else the path under the root where the payload is to be written; an
    /// error when the key or file name is not a safe path segment.
    pub fn archive_bytes(&self, message_key: &str, filename: &str, bytes: &[u8]) -> (r: Result<ArchiveRecord, BridgeError>)
        ensures
            !self.keeps_payloads() ==> (r matches Ok(rec) && rec.path is None && rec.sha256@
                == sha256_hex_spec(bytes@) && rec.size_bytes == bytes@.len()),
            self.keeps_payloads() ==> match r {
                Ok(rec) => kept_record(self.root_spec(), message_key@, filename@, bytes@, rec),
                Err(e) => relative_path_spec(message_key@, filename@) == Err::<Seq<char>, ErrorView>(e@),
            },
    {
        if !self.save_full_payload {
            return Ok(ArchiveRecord { path: None, sha256: sha256_hex(bytes), size_bytes: bytes.len() as u64 });
        }
        kept(self.root.as_str(), message_key, filename, bytes)
    }
}

impl ProcessedArtifactStore {
    /// The directory artifacts are kept under.
    pub closed spec fn root_spec(&self) -> Seq<char> {
        self.root@
    }

    /// A store under `root`.
    pub fn new(root: &str) -> (r: ProcessedArtifactStore)
        ensures
            r.root_spec() == root@,
    {
        ProcessedArtifactStore { root: string_from(root) }
    }

    /// The record of saving an artifact: the path under the root where it is
    /// to be written; an error when the key or file name is not a safe path
    /// segment.
    pub fn save_artifact(&self, message_key: &str, filename: &str, bytes: &[u8]) -> (r: Result<ArchiveRecord, BridgeError>)
        ensures
            match r {
                Ok(rec) => kept_record(self.root_spec(), message_key@, filename@, bytes@, rec),
                Err(e) => relative_path_spec(message_key@, filename@) == Err::<Seq<char>, ErrorView>(e@),
            },
    {
        kept(self.root.as_str(), message_key, filename, bytes)
    }
}

} // verus!
