//! The processed form of a message.
use vstd::prelude::*;

use crate::text::string_from;

verus! {

#[derive(Debug, Clone, Copy, PartialEq, Eq, Structural)]
pub enum ProcessedArtifactKind {
    Text,
    Image,
    Voice,
    Video,
    ShortVideo,
    Location,
    Link,
}

/// A message after processing: its Markdown body and where it came from.
/// Paths are kept as text.
#[derive(Debug, Clone, PartialEq, Eq)]
pub struct ProcessedArtifact {
    pub message_key: String,
    pub kind: ProcessedArtifactKind,
    pub markdown_body: String,
    pub summary: Option<String>,
    pub raw_payload_paths: Vec<String>,
    pub processed_payload_paths: Vec<String>,
    pub provider: Option<String>,
    pub model: Option<String>,
    pub external_service: Option<String>,
}

impl ProcessedArtifact {
    /// An artifact with a key, a kind and a body, and nothing else recorded.
    pub fn new(message_key: &str, kind: ProcessedArtifactKind, markdown_body: &str) -> (r: Self)
        ensures
            r.message_key@ == message_key@,
            r.kind == kind,
            r.markdown_body@ == markdown_body@,
            r.summary is None,
            r.raw_payload_paths@.len() == 0,
            r.processed_payload_paths@.len() == 0,
            r.provider is None,
            r.model is None,
            r.external_service is None,
    {
        ProcessedArtifact {
            message_key: string_from(message_key),
            kind,
            markdown_body: string_from(markdown_body),
            summary: None,
            raw_payload_paths: Vec::new(),
            processed_payload_paths: Vec::new(),
            provider: None,
            model: None,
            external_service: None,
        }
    }
}

} // verus!
