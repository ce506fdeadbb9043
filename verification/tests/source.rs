use sage_wiki_bridge::error::BridgeError;
use sage_wiki_bridge::preprocess::artifact::{ProcessedArtifact, ProcessedArtifactKind};
use sage_wiki_bridge::source::render::render_daily_log_entry;
use sage_wiki_bridge::source::upsert::upsert_daily_entry;
use sage_wiki_bridge::source::{
    capture_date_from_received_at, sanitize_segment, SourceMetadata, SourceWriter,
};

fn metadata() -> SourceMetadata {
    SourceMetadata {
        wechat_msg_id: Some("1000000000000000001".to_string()),
        message_type: "text".to_string(),
        received_at: "2026-05-27T21:30:15+08:00".to_string(),
        wechat_create_time: Some(1780000001),
        openid_hash: "sha256:abc".to_string(),
        raw_dir: Some("data/raw/msg_1".to_string()),
        provider: None,
        model: None,
        external_service: None,
        bridge_version: "0.1.0".to_string(),
    }
}

fn write(writer: &SourceWriter, current: Option<&str>, artifact: &ProcessedArtifact) -> (String, String) {
    let path = writer.source_path(artifact, &metadata()).unwrap();
    let content = writer.render_source(current, artifact, &metadata()).unwrap();
    (path, content)
}

#[test]
fn writes_markdown_source_atomically() {
    let writer = SourceWriter::daily_log("/tmp/source");
    let artifact = ProcessedArtifact::new(
        "20260527T133015Z_1000000000000000001",
        ProcessedArtifactKind::Text,
        "hello sage-wiki",
    );

    let (path, content) = write(&writer, None, &artifact);

    assert_eq!(path, "/tmp/source/2026-05-27.md");
    assert!(content.contains("source: \"wechat-official-account\""));
    assert!(content.contains("source_type: \"wechat_daily_messages\""));
    assert!(content.contains("capture_date: \"2026-05-27\""));
    assert!(content.contains("message_type: \"text\""));
    assert!(content.contains("### Processed Content"));
    assert!(content.contains("hello sage-wiki"));
    assert!(content.contains("<!-- sage-wiki-bridge-message-start:20260527T133015Z_1000000000000000001 -->"));
}

#[test]
fn upserts_existing_daily_message_entry() {
    let writer = SourceWriter::daily_log("/tmp/source");
    let first = ProcessedArtifact::new("msg_1", ProcessedArtifactKind::Text, "old content");
    let second = ProcessedArtifact::new("msg_1", ProcessedArtifactKind::Text, "new content");

    let (_, after_first) = write(&writer, None, &first);
    let (_, content) = write(&writer, Some(&after_first), &second);

    assert!(!content.contains("old content"));
    assert!(content.contains("new content"));
    assert_eq!(content.matches("<!-- sage-wiki-bridge-message-start:msg_1 -->").count(), 1);
}

#[test]
fn rejects_unsafe_message_key() {
    let writer = SourceWriter::daily_log("/tmp/source");
    let artifact = ProcessedArtifact::new("../escape", ProcessedArtifactKind::Text, "bad path");

    let err = writer.source_path(&artifact, &metadata()).unwrap_err();

    assert!(matches!(err, BridgeError::PathOutsideRoot(_)));
    let err = writer.render_source(None, &artifact, &metadata()).unwrap_err();
    assert!(matches!(err, BridgeError::PathOutsideRoot(_)));
}

#[test]
fn escapes_yaml_string_values() {
    let artifact = ProcessedArtifact::new("msg_1", ProcessedArtifactKind::Text, "body");
    let mut metadata = metadata();
    metadata.message_type = "text\"quoted".to_string();

    let markdown = render_daily_log_entry("msg_1", &artifact, &metadata);

    assert!(markdown.contains("- message_type: \"text\\\"quoted\""));
}

#[test]
fn writes_ai_friendly_daily_source_by_default() {
    let writer = SourceWriter::new("/tmp/source");
    let artifact = ProcessedArtifact::new(
        "20260527T133015Z_1000000000000000001",
        ProcessedArtifactKind::Text,
        "hello sage-wiki",
    );

    let (_, content) = write(&writer, None, &artifact);

    assert!(content.contains("source_type: \"wechat_ai_messages\""));
    assert!(content.contains("# WeChat Knowledge 2026-05-27"));
    assert!(content.contains("## Text 2026-05-27T21:30:15+08:00"));
    assert!(content.contains("hello sage-wiki"));
    assert!(content.contains("<!-- swb:start:20260527T133015Z_1000000000000000001 -->"));
    assert!(!content.contains("### Metadata"));
    assert!(!content.contains("openid_hash"));
    assert!(!content.contains("raw_dir"));
}

#[test]
fn rewriting_an_entry_equals_writing_it_once() {
    let header = "# Day\n";
    let first = "<!-- swb:start:k -->\n\nold\n\n<!-- swb:end:k -->\n";
    let second = "<!-- swb:start:k -->\n\nnew\n\n<!-- swb:end:k -->\n";
    let once = upsert_daily_entry(header, "k", second);
    let twice = upsert_daily_entry(&upsert_daily_entry(header, "k", first), "k", second);
    assert_eq!(once, twice);
    assert_eq!(once, "# Day\n\n<!-- swb:start:k -->\n\nnew\n\n<!-- swb:end:k -->\n");
}

#[test]
fn upsert_keeps_the_text_around_a_replaced_entry() {
    let doc = "head  \n\n<!-- swb:start:k -->old<!-- swb:end:k -->\n\n\ntail\n";
    let out = upsert_daily_entry(doc, "k", "<!-- swb:start:k -->new<!-- swb:end:k -->\n");
    assert_eq!(out, "head\n\n<!-- swb:start:k -->new<!-- swb:end:k -->\ntail\n");
    assert_eq!(upsert_daily_entry(&out, "k", "<!-- swb:start:k -->new<!-- swb:end:k -->\n"), out);
    assert_eq!(out.matches("<!-- swb:start:k -->").count(), 1);
    let appended = upsert_daily_entry("head\n", "other", "<!-- swb:start:other -->x<!-- swb:end:other -->");
    assert_eq!(appended, "head\n\n<!-- swb:start:other -->x<!-- swb:end:other -->\n");
}

#[test]
fn capture_date_needs_the_date_shape() {
    assert_eq!(capture_date_from_received_at("2026-05-27T21:30:15+08:00").unwrap(), "2026-05-27");
    let err = capture_date_from_received_at("2026-05").unwrap_err();
    assert_eq!(err.describe(), "configuration error: received_at is too short for daily source path: 2026-05");
    let err = capture_date_from_received_at("2026/05/27T00").unwrap_err();
    assert_eq!(err.describe(), "configuration error: received_at does not start with YYYY-MM-DD: 2026/05/27T00");
    let err = capture_date_from_received_at("2026-05-2é").unwrap_err();
    assert!(err.describe().contains("too short"));
}

#[test]
fn sanitize_segment_replaces_odd_characters() {
    assert_eq!(sanitize_segment("a b:c.d_e-f").unwrap(), "a_b_c.d_e-f");
    assert!(matches!(sanitize_segment("..").unwrap_err(), BridgeError::PathOutsideRoot(_)));
    assert!(matches!(sanitize_segment("").unwrap_err(), BridgeError::PathOutsideRoot(_)));
    assert!(matches!(sanitize_segment("a\\b").unwrap_err(), BridgeError::PathOutsideRoot(_)));
}

#[test]
fn ai_entry_notes_the_outside_service() {
    let writer = SourceWriter::ai("");
    let artifact = ProcessedArtifact::new("k", ProcessedArtifactKind::Link, "  page  ");
    let mut m = metadata();
    m.message_type = "link".to_string();
    m.external_service = Some("jina_reader".to_string());
    let content = writer.render_source(Some(""), &artifact, &m).unwrap();
    assert_eq!(
        content,
        "\n\n<!-- swb:start:k -->\n\n## Link 2026-05-27T21:30:15+08:00\n\npage\n\n_via jina_reader_\n\n<!-- swb:end:k -->\n"
    );
    assert_eq!(writer.source_path(&artifact, &m).unwrap(), "2026-05-27.md");
}

#[test]
fn new_writer_writes_like_the_ai_writer() {
    let artifact = ProcessedArtifact::new("msg_1", ProcessedArtifactKind::Text, "hello");
    let default_writer = SourceWriter::new("/tmp/source");
    let ai_writer = SourceWriter::ai("/tmp/source");
    assert_eq!(write(&default_writer, None, &artifact), write(&ai_writer, None, &artifact));
    assert_eq!(write(&default_writer, Some("prior text"), &artifact), write(&ai_writer, Some("prior text"), &artifact));
}

#[test]
fn writing_the_same_entry_twice_changes_nothing() {
    let writer = SourceWriter::ai("/tmp/source");
    let artifact = ProcessedArtifact::new("msg_1", ProcessedArtifactKind::Text, "hello");
    let (_, once) = write(&writer, None, &artifact);
    let (_, twice) = write(&writer, Some(&once), &artifact);
    assert_eq!(once, twice);
    assert_eq!(twice.matches("<!-- swb:start:msg_1 -->").count(), 1);
}
