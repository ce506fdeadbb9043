//! The Markdown of daily source documents: front matter, headings and the
//! delimited entry of each message.
use vstd::prelude::*;

use crate::preprocess::artifact::ProcessedArtifact;
use crate::source::SourceMetadata;
use crate::text::{i64_to_dec, push_str, replace_all, str_eq, string_from, trim};

verus! {

/// A value escaped for a double-quoted YAML string: backslashes doubled,
/// then double quotes preceded by a backslash.
pub open spec fn yaml_escape_spec(v: Seq<char>) -> Seq<char> {
    crate::text::replace_spec(crate::text::replace_spec(v, "\\"@, "\\\\"@), "\""@, "\\\""@)
}

/// A `key: "value"` front-matter line.
pub open spec fn yaml_line(key: Seq<char>, value: Seq<char>) -> Seq<char> {
    key + ": "@ + "\""@ + yaml_escape_spec(value) + "\"\n"@
}

/// A `- key: "value"` bullet line.
pub open spec fn bullet_line(key: Seq<char>, value: Seq<char>) -> Seq<char> {
    "- "@ + key + ": \""@ + yaml_escape_spec(value) + "\"\n"@
}

/// The heading word of a message type.
pub open spec fn readable_type_spec(t: Seq<char>) -> Seq<char> {
    if t == "text"@ {
        "Text"@
    } else if t == "image"@ {
        "Image"@
    } else if t == "voice"@ {
        "Voice"@
    } else if t == "video"@ {
        "Video"@
    } else if t == "shortvideo"@ {
        "Short Video"@
    } else if t == "location"@ {
        "Location"@
    } else if t == "link"@ {
        "Link"@
    } else {
        t
    }
}

/// The head of a daily document in the format meant for AI readers.
pub open spec fn ai_header_spec(date: Seq<char>) -> Seq<char> {
    "---\n"@ + yaml_line("source"@, "wechat-official-account"@) + yaml_line(
        "source_type"@,
        "wechat_ai_messages"@,
    ) + yaml_line("capture_date"@, date) + "---\n\n"@ + "# WeChat Knowledge "@ + date + "\n"@
}

/// The head of a daily document in the log format.
pub open spec fn daily_log_header_spec(date: Seq<char>, bridge_version: Seq<char>) -> Seq<char> {
    "---\n"@ + yaml_line("source"@, "wechat-official-account"@) + yaml_line(
        "source_type"@,
        "wechat_daily_messages"@,
    ) + yaml_line("capture_date"@, date) + yaml_line("bridge_version"@, bridge_version)
        + "---\n\n"@ + "# WeChat captures "@ + date + "\n"@
}

/// The entry of a message in the AI format.
pub open spec fn ai_entry_spec(key: Seq<char>, body: Seq<char>, m: SourceMetadata) -> Seq<char> {
    "<!-- swb:start:"@ + key + " -->\n\n"@ + "## "@ + readable_type_spec(m.message_type@) + " "@
        + m.received_at@ + "\n\n"@ + crate::text::trim_spec(body) + "\n\n"@ + match m.external_service {
        Some(s) => "_via "@ + s@ + "_\n\n"@,
        None => Seq::empty(),
    } + "<!-- swb:end:"@ + key + " -->\n"@
}

/// A bullet line for an optional value, or nothing.
pub open spec fn opt_bullet(key: Seq<char>, v: Option<String>) -> Seq<char> {
    match v {
        Some(s) => bullet_line(key, s@),
        None => Seq::empty(),
    }
}

/// The metadata block of a message in the log format.
pub open spec fn metadata_block_spec(key: Seq<char>, m: SourceMetadata) -> Seq<char> {
    "### Metadata\n\n"@ + opt_bullet("wechat_msg_id"@, m.wechat_msg_id) + bullet_line(
        "message_key"@,
        key,
    ) + bullet_line("message_type"@, m.message_type@) + bullet_line(
        "received_at"@,
        m.received_at@,
    ) + match m.wechat_create_time {
        Some(t) => "- wechat_create_time: `"@ + crate::text::signed_dec_spec(t as int) + "`\n"@,
        None => Seq::empty(),
    } + bullet_line("openid_hash"@, m.openid_hash@) + opt_bullet("provider"@, m.provider)
        + opt_bullet("model"@, m.model) + opt_bullet("external_service"@, m.external_service)
        + opt_bullet("raw_dir"@, m.raw_dir) + bullet_line("bridge_version"@, m.bridge_version@)
}

/// The entry of a message in the log format.
pub open spec fn daily_log_entry_spec(key: Seq<char>, body: Seq<char>, m: SourceMetadata) -> Seq<char> {
    "<!-- sage-wiki-bridge-message-start:"@ + key + " -->\n\n"@ + "## "@ + m.received_at@ + " "@
        + m.message_type@ + "\n\n"@ + metadata_block_spec(key, m) + "\n### Processed Content\n\n"@
        + crate::text::trim_spec(body) + "\n\n"@ + "<!-- sage-wiki-bridge-message-end:"@ + key
        + " -->\n"@
}

/// Escapes a value for a double-quoted YAML string.
pub fn yaml_escape(value: &str) -> (r: String)
    ensures
        r@ == yaml_escape_spec(value@),
{
    proof {
        reveal_strlit("\\");
        reveal_strlit("\"");
    }
    let a = replace_all(value, "\\", "\\\\");
    replace_all(a.as_str(), "\"", "\\\"")
}

/// Appends a `key: "value"` line.
pub fn push_yaml_str(out: &mut String, key: &str, value: &str)
    ensures
        final(out)@ == old(out)@ + yaml_line(key@, value@),
{
    push_str(out, key);
    push_str(out, ": ");
    push_str(out, "\"");
    let e = yaml_escape(value);
    push_str(out, e.as_str());
    push_str(out, "\"\n");
}

/// Appends a `- key: "value"` line.
pub fn push_bullet_str(out: &mut String, key: &str, value: &str)
    ensures
        final(out)@ == old(out)@ + bullet_line(key@, value@),
{
    push_str(out, "- ");
    push_str(out, key);
    push_str(out, ": \"");
    let e = yaml_escape(value);
    push_str(out, e.as_str());
    push_str(out, "\"\n");
}

fn push_opt_bullet(out: &mut String, key: &str, value: &Option<String>)
    ensures
        final(out)@ == old(out)@ + opt_bullet(key@, *value),
{
    match value {
        Some(v) => push_bullet_str(out, key, v.as_str()),
        None => {
            assert(old(out)@ + Seq::<char>::empty() == old(out)@);
        },
    }
}

/// The heading word of a message type.
pub fn readable_message_type(message_type: &str) -> (r: String)
    ensures
        r@ == readable_type_spec(message_type@),
{
    if str_eq(message_type, "text") {
        string_from("Text")
    } else if str_eq(message_type, "image") {
        string_from("Image")
    } else if str_eq(message_type, "voice") {
        string_from("Voice")
    } else if str_eq(message_type, "video") {
        string_from("Video")
    } else if str_eq(message_type, "shortvideo") {
        string_from("Short Video")
    } else if str_eq(message_type, "location") {
        string_from("Location")
    } else if str_eq(message_type, "link") {
        string_from("Link")
    } else {
        string_from(message_type)
    }
}

/// The head of a daily document in the AI format.
pub fn render_ai_document_header(capture_date: &str) -> (r: String)
    ensures
        r@ == ai_header_spec(capture_date@),
{
    let mut out = string_from("---\n");
    push_yaml_str(&mut out, "source", "wechat-official-account");
    push_yaml_str(&mut out, "source_type", "wechat_ai_messages");
    push_yaml_str(&mut out, "capture_date", capture_date);
    push_str(&mut out, "---\n\n");
    push_str(&mut out, "# WeChat Knowledge ");
    push_str(&mut out, capture_date);
    push_str(&mut out, "\n");
    out
}

/// The head of a daily document in the log format.
pub fn render_daily_log_document_header(capture_date: &str, metadata: &SourceMetadata) -> (r: String)
    ensures
        r@ == daily_log_header_spec(capture_date@, metadata.bridge_version@),
{
    let mut out = string_from("---\n");
    push_yaml_str(&mut out, "source", "wechat-official-account");
    push_yaml_str(&mut out, "source_type", "wechat_daily_messages");
    push_yaml_str(&mut out, "capture_date", capture_date);
    push_yaml_str(&mut out, "bridge_version", metadata.bridge_version.as_str());
    push_str(&mut out, "---\n\n");
    push_str(&mut out, "# WeChat captures ");
    push_str(&mut out, capture_date);
    push_str(&mut out, "\n");
    out
}

/// The entry of a message in the AI format.
pub fn render_ai_entry(sanitized_message_key: &str, artifact: &ProcessedArtifact, metadata: &SourceMetadata) -> (r: String)
    ensures
        r@ == ai_entry_spec(sanitized_message_key@, artifact.markdown_body@, *metadata),
{
    let mut out = string_from("<!-- swb:start:");
    push_str(&mut out, sanitized_message_key);
    push_str(&mut out, " -->\n\n");
    push_str(&mut out, "## ");
    let word = readable_message_type(metadata.message_type.as_str());
    push_str(&mut out, word.as_str());
    push_str(&mut out, " ");
    push_str(&mut out, metadata.received_at.as_str());
    push_str(&mut out, "\n\n");
    let body = trim(artifact.markdown_body.as_str());
    push_str(&mut out, body.as_str());
    push_str(&mut out, "\n\n");
    match &metadata.external_service {
        Some(s) => {
            push_str(&mut out, "_via ");
            push_str(&mut out, s.as_str());
            push_str(&mut out, "_\n\n");
        },
        None => {},
    }
    push_str(&mut out, "<!-- swb:end:");
    push_str(&mut out, sanitized_message_key);
    push_str(&mut out, " -->\n");
    assert(out@ =~= ai_entry_spec(sanitized_message_key@, artifact.markdown_body@, *metadata));
    out
}

/// The entry of a message in the log format.
#[verifier::rlimit(40)]
pub fn render_daily_log_entry(sanitized_message_key: &str, artifact: &ProcessedArtifact, metadata: &SourceMetadata) -> (r: String)
    ensures
        r@ == daily_log_entry_spec(sanitized_message_key@, artifact.markdown_body@, *metadata),
{
    let mut out = string_from("<!-- sage-wiki-bridge-message-start:");
    push_str(&mut out, sanitized_message_key);
    push_str(&mut out, " -->\n\n");
    push_str(&mut out, "## ");
    push_str(&mut out, metadata.received_at.as_str());
    push_str(&mut out, " ");
    push_str(&mut out, metadata.message_type.as_str());
    push_str(&mut out, "\n\n");
    let ghost head = out@;
    push_str(&mut out, "### Metadata\n\n");
    push_opt_bullet(&mut out, "wechat_msg_id", &metadata.wechat_msg_id);
    push_bullet_str(&mut out, "message_key", sanitized_message_key);
    push_bullet_str(&mut out, "message_type", metadata.message_type.as_str());
    push_bullet_str(&mut out, "received_at", metadata.received_at.as_str());
    match metadata.wechat_create_time {
        Some(t) => {
            push_str(&mut out, "- wechat_create_time: `");
            let d = i64_to_dec(t);
            push_str(&mut out, d.as_str());
            push_str(&mut out, "`\n");
        },
        None => {},
    }
    push_bullet_str(&mut out, "openid_hash", metadata.openid_hash.as_str());
    push_opt_bullet(&mut out, "provider", &metadata.provider);
    push_opt_bullet(&mut out, "model", &metadata.model);
    push_opt_bullet(&mut out, "external_service", &metadata.external_service);
    push_opt_bullet(&mut out, "raw_dir", &metadata.raw_dir);
    push_bullet_str(&mut out, "bridge_version", metadata.bridge_version.as_str());
    assert(out@ =~= head + metadata_block_spec(sanitized_message_key@, *metadata));
    push_str(&mut out, "\n### Processed Content\n\n");
    let body = trim(artifact.markdown_body.as_str());
    push_str(&mut out, body.as_str());
    push_str(&mut out, "\n\n");
    push_str(&mut out, "<!-- sage-wiki-bridge-message-end:");
    push_str(&mut out, sanitized_message_key);
    push_str(&mut out, " -->\n");
    assert(out@ =~= daily_log_entry_spec(sanitized_message_key@, artifact.markdown_body@, *metadata));
    out
}

/// The message types the heading words are written for.
pub open spec fn known_message_type(t: Seq<char>) -> bool {
    t == "text"@ || t == "image"@ || t == "voice"@ || t == "video"@ || t == "shortvideo"@ || t == "location"@
        || t == "link"@
}

/// Different known message types get different heading words, and a voice
/// message is headed `Voice`.
pub proof fn lemma_heading_words_tell_types_apart(t1: Seq<char>, t2: Seq<char>)
    ensures
        known_message_type(t1) && known_message_type(t2) && readable_type_spec(t1) == readable_type_spec(t2)
            ==> t1 == t2,
        readable_type_spec("voice"@) == "Voice"@,
{
    reveal_strlit("text");
    reveal_strlit("image");
    reveal_strlit("voice");
    reveal_strlit("video");
    reveal_strlit("shortvideo");
    reveal_strlit("location");
    reveal_strlit("link");
    reveal_strlit("Text");
    reveal_strlit("Image");
    reveal_strlit("Voice");
    reveal_strlit("Video");
    reveal_strlit("Short Video");
    reveal_strlit("Location");
    reveal_strlit("Link");
    let words = seq!["Text"@, "Image"@, "Voice"@, "Video"@, "Short Video"@, "Location"@, "Link"@];
    let types = seq!["text"@, "image"@, "voice"@, "video"@, "shortvideo"@, "location"@, "link"@];
    assert forall|i: int, j: int| 0 <= i < j < 7 implies #[trigger] words[i] != #[trigger] words[j]
        && types[i] != types[j] by {
        if words[i].len() == words[j].len() {
            assert(words[i][0] != words[j][0] || words[i][1] != words[j][1]);
            assert(types[i][0] != types[j][0] || types[i][1] != types[j][1]);
        } else {
            assert(types[i].len() != types[j].len() || types[i][0] != types[j][0]);
        }
    }
    assert forall|i: int| 0 <= i < 7 implies readable_type_spec(#[trigger] types[i]) == words[i] by {
    }
    if known_message_type(t1) && known_message_type(t2) {
        let i = choose|i: int| 0 <= i < 7 && types[i] == t1;
        let j = choose|j: int| 0 <= j < 7 && types[j] == t2;
        assert(readable_type_spec(types[i]) == words[i]);
        assert(readable_type_spec(types[j]) == words[j]);
    }
}

proof fn lemma_starts_and_ends(a: Seq<char>, mid: Seq<char>, b: Seq<char>)
    ensures
        crate::text::starts_with_spec(a + mid + b, a),
        crate::text::ends_with_spec(a + mid + b, b),
{
    assert((a + mid + b).take(a.len() as int) =~= a);
    assert((a + mid + b).skip((a + mid + b).len() - b.len()) =~= b);
}

/// An entry in the AI format opens with the `swb` start marker of its key
/// and closes with its `swb` end marker and a line break: the markers that
/// putting the entry into a document looks for.
pub proof fn lemma_ai_entry_is_delimited(key: Seq<char>, body: Seq<char>, m: SourceMetadata)
    ensures
        ({
            let e = ai_entry_spec(key, body, m);
            let (sm, em) = crate::source::upsert::markers_spec(e, key);
            &&& sm == "<!-- swb:start:"@ + key + " -->"@
            &&& crate::text::starts_with_spec(e, sm)
            &&& crate::text::ends_with_spec(e, em + "\n"@)
        }),
{
    reveal_strlit("<!-- swb:start:");
    reveal_strlit(" -->");
    reveal_strlit(" -->\n");
    reveal_strlit(" -->\n\n");
    reveal_strlit("\n");
    reveal_strlit("\n\n");
    let ai = ai_entry_spec(key, body, m);
    let sm = "<!-- swb:start:"@ + key + " -->"@;
    let em = "<!-- swb:end:"@ + key + " -->"@;
    let rest = "## "@ + readable_type_spec(m.message_type@) + " "@ + m.received_at@ + "\n\n"@
        + crate::text::trim_spec(body) + "\n\n"@ + match m.external_service {
        Some(s) => "_via "@ + s@ + "_\n\n"@,
        None => Seq::empty(),
    };
    assert(" -->\n\n"@ =~= " -->"@ + "\n\n"@);
    assert(" -->\n"@ =~= " -->"@ + "\n"@);
    assert(ai =~= sm + ("\n\n"@ + rest) + (em + "\n"@));
    lemma_starts_and_ends(sm, "\n\n"@ + rest, em + "\n"@);
    assert(ai.take(15) =~= "<!-- swb:start:"@);
}

/// An entry in the log format opens with the `sage-wiki-bridge` start
/// marker of its key and closes with its end marker and a line break: the
/// markers that putting the entry into a document looks for.
#[verifier::rlimit(60)]
pub proof fn lemma_log_entry_is_delimited(key: Seq<char>, body: Seq<char>, m: SourceMetadata)
    ensures
        ({
            let e = daily_log_entry_spec(key, body, m);
            let (sm, em) = crate::source::upsert::markers_spec(e, key);
            &&& sm == "<!-- sage-wiki-bridge-message-start:"@ + key + " -->"@
            &&& crate::text::starts_with_spec(e, sm)
            &&& crate::text::ends_with_spec(e, em + "\n"@)
        }),
{
    reveal_strlit("<!-- swb:start:");
    reveal_strlit("<!-- sage-wiki-bridge-message-start:");
    reveal_strlit(" -->");
    reveal_strlit(" -->\n");
    reveal_strlit(" -->\n\n");
    reveal_strlit("\n");
    reveal_strlit("\n\n");
    let lg = daily_log_entry_spec(key, body, m);
    let sm = "<!-- sage-wiki-bridge-message-start:"@ + key + " -->"@;
    let em = "<!-- sage-wiki-bridge-message-end:"@ + key + " -->"@;
    let rest = "## "@ + m.received_at@ + " "@ + m.message_type@ + "\n\n"@ + metadata_block_spec(key, m)
        + "\n### Processed Content\n\n"@ + crate::text::trim_spec(body) + "\n\n"@;
    assert(" -->\n\n"@ =~= " -->"@ + "\n\n"@);
    assert(" -->\n"@ =~= " -->"@ + "\n"@);
    assert(lg =~= sm + ("\n\n"@ + rest) + (em + "\n"@));
    lemma_starts_and_ends(sm, "\n\n"@ + rest, em + "\n"@);
    assert(lg[6] == sm[6] && sm[6] == 'a');
    assert(!crate::text::starts_with_spec(lg, crate::source::upsert::ai_start_prefix())) by {
        if crate::text::starts_with_spec(lg, crate::source::upsert::ai_start_prefix()) {
            assert(lg.take(15)[6] == lg[6]);
        }
    }
}

} // verus!
