//! Text messages pass through unchanged.
use vstd::prelude::*;

use crate::preprocess::artifact::{ProcessedArtifact, ProcessedArtifactKind};
use crate::preprocess::message_key;
use crate::wechat::message::TextMessage;

verus! {

/// The artifact of a text message: its content, keyed by the message.
pub fn process_text(message: &TextMessage) -> (r: ProcessedArtifact)
    ensures
        r.message_key@ == crate::preprocess::message_key_spec(message.common, "text"@),
        r.kind == ProcessedArtifactKind::Text,
        r.markdown_body@ == message.content@,
        r.summary is None,
        r.raw_payload_paths@.len() == 0,
        r.processed_payload_paths@.len() == 0,
        r.provider is None,
        r.model is None,
        r.external_service is None,
{
    let key = message_key(&message.common, "text");
    ProcessedArtifact::new(key.as_str(), ProcessedArtifactKind::Text, message.content.as_str())
}

} // verus!
