//! Media messages are described by a language model.
use vstd::prelude::*;

use crate::preprocess::artifact::{ProcessedArtifact, ProcessedArtifactKind};

verus! {

/// What a model made of a media message.
#[derive(Debug, Clone, PartialEq, Eq)]
pub struct ModelPreprocessOutput {
    pub message_key: String,
    pub kind: ProcessedArtifactKind,
    pub markdown_body: String,
    pub provider: String,
    pub model: String,
    pub raw_payload_paths: Vec<String>,
    pub processed_payload_paths: Vec<String>,
}

/// The artifact that records a model's output.
pub fn process_model_output(output: ModelPreprocessOutput) -> (r: ProcessedArtifact)
    ensures
        r.message_key == output.message_key,
        r.kind == output.kind,
        r.markdown_body == output.markdown_body,
        r.summary is None,
        r.provider == Some(output.provider),
        r.model == Some(output.model),
        r.raw_payload_paths == output.raw_payload_paths,
        r.processed_payload_paths == output.processed_payload_paths,
        r.external_service is None,
{
    ProcessedArtifact {
        message_key: output.message_key,
        kind: output.kind,
        markdown_body: output.markdown_body,
        summary: None,
        raw_payload_paths: output.raw_payload_paths,
        processed_payload_paths: output.processed_payload_paths,
        provider: Some(output.provider),
        model: Some(output.model),
        external_service: None,
    }
}

} // verus!
