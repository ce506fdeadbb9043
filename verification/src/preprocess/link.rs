//! Link messages: the page is read and its Markdown replaces the bare URL.
use vstd::prelude::*;

use crate::preprocess::artifact::{ProcessedArtifact, ProcessedArtifactKind};
use crate::preprocess::message_key;
use crate::text::{push_str, string_from, trim};
use crate::wechat::message::LinkMessage;

verus! {

/// `"{label}{value}\n"` for a present value, nothing for an absent one.
pub open spec fn opt_line(label: Seq<char>, value: Option<String>) -> Seq<char> {
    match value {
        Some(v) => label + v@ + "\n"@,
        None => Seq::empty(),
    }
}

/// The Markdown of a link message together with the page the reader returned.
pub open spec fn link_body_spec(m: LinkMessage, reader_markdown: Seq<char>) -> Seq<char> {
    "## Original Link\n\n"@ + opt_line("- Title: "@, m.title) + opt_line(
        "- Description: "@,
        m.description,
    ) + "- URL: "@ + m.url@ + "\n\n"@ + "## Reader Content\n\n"@ + crate::text::trim_spec(
        reader_markdown,
    ) + "\n"@
}

/// Appends `"{label}{value}\n"` when the value is present.
pub fn push_opt_line(out: &mut String, label: &str, value: &Option<String>)
    ensures
        final(out)@ == old(out)@ + opt_line(label@, *value),
{
    match value {
        Some(v) => {
            push_str(out, label);
            push_str(out, v.as_str());
            push_str(out, "\n");
        },
        None => {
            assert(old(out)@ + Seq::<char>::empty() =~= old(out)@);
        },
    }
}

/// The artifact of a link message, whose body is the page's Markdown.
pub fn process_link(
    message: &LinkMessage,
    reader_markdown: &str,
    reader_payload_path: Option<String>,
) -> (r: ProcessedArtifact)
    ensures
        r.message_key@ == crate::preprocess::message_key_spec(message.common, "link"@),
        r.kind == ProcessedArtifactKind::Link,
        r.markdown_body@ == link_body_spec(*message, reader_markdown@),
        r.external_service matches Some(s) && s@ == "jina_reader"@,
        crate::wechat::message::opt_view(r.summary) == crate::wechat::message::opt_view(
            message.title,
        ),
        r.raw_payload_paths@.len() == 0,
        r.processed_payload_paths@ == (match reader_payload_path {
            Some(p) => seq![p],
            None => Seq::<String>::empty(),
        }),
        r.provider is None,
        r.model is None,
{
    let mut body = string_from("## Original Link\n\n");
    push_opt_line(&mut body, "- Title: ", &message.title);
    push_opt_line(&mut body, "- Description: ", &message.description);
    push_str(&mut body, "- URL: ");
    push_str(&mut body, message.url.as_str());
    push_str(&mut body, "\n\n");
    push_str(&mut body, "## Reader Content\n\n");
    let trimmed = trim(reader_markdown);
    push_str(&mut body, trimmed.as_str());
    push_str(&mut body, "\n");
    let key = message_key(&message.common, "link");
    let mut artifact = ProcessedArtifact::new(key.as_str(), ProcessedArtifactKind::Link, body.as_str());
    artifact.external_service = Some(string_from("jina_reader"));
    artifact.summary = match &message.title {
        Some(t) => Some(string_from(t.as_str())),
        None => None,
    };
    if let Some(path) = reader_payload_path {
        artifact.processed_payload_paths.push(path);
    }
    assert(artifact.markdown_body@ =~= link_body_spec(*message, reader_markdown@));
    artifact
}

} // verus!
