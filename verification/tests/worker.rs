use sage_wiki_bridge::error::BridgeError;
use sage_wiki_bridge::llm::{LlmOutput, MediaKind};
use sage_wiki_bridge::preprocess::artifact::{ProcessedArtifact, ProcessedArtifactKind};
use sage_wiki_bridge::store::StoredMessage;
use sage_wiki_bridge::worker::media_processor::{
    extension_for_mime, media_artifact, mime_type, plan_media_message, MediaPrompts,
};
use sage_wiki_bridge::worker::urls::extract_http_urls;
use sage_wiki_bridge::worker::{
    message_key, metadata_from_stored_message, next_retry_at, plan_stored_message, retry_delay_seconds,
    stale_cutoff, text_artifact, LinkReading, NoopExternalClients, NoopMediaJobProcessor, ProcessingPlan,
    RetryPolicy,
};

fn stored(message_type: &str) -> StoredMessage {
    StoredMessage {
        id: 7,
        wechat_msg_id: Some("msg_text_1".to_string()),
        from_openid_hash: "sha256:abc".to_string(),
        create_time: Some(1780000001),
        received_at: "2026-05-27T21:30:15+08:00".to_string(),
        message_type: message_type.to_string(),
        content_text: None,
        media_id: None,
        thumb_media_id: None,
        pic_url: None,
        voice_format: None,
        voice_recognition: None,
        location_lat: None,
        location_lng: None,
        location_scale: None,
        location_label: None,
        link_title: None,
        link_description: None,
        link_url: None,
        raw_dir: "data/raw/msg_text_1".to_string(),
    }
}

#[test]
fn extracts_urls_from_text() {
    assert_eq!(
        extract_http_urls("看这个：https://example.com/a?b=1。再看 https://example.org/x)."),
        vec!["https://example.com/a?b=1".to_string(), "https://example.org/x".to_string()]
    );
}

#[test]
fn urls_are_found_once_and_must_have_hosts() {
    assert_eq!(
        extract_http_urls("a http://x.test/1 b http://x.test/1 c https:// d"),
        vec!["http://x.test/1".to_string()]
    );
    assert!(extract_http_urls("no links here").is_empty());
}

#[test]
fn mime_type_maps_voice_format() {
    assert_eq!(mime_type("voice", Some("mp3")), "audio/mpeg");
    assert_eq!(mime_type("voice", Some("amr")), "audio/amr");
}

#[test]
fn mime_types_and_extensions() {
    assert_eq!(mime_type("image", None), "image/jpeg");
    assert_eq!(mime_type("shortvideo", None), "video/mp4");
    assert_eq!(mime_type("voice", Some("wav")), "audio/wav");
    assert_eq!(mime_type("file", None), "application/octet-stream");
    assert_eq!(extension_for_mime("audio/mpeg"), ".mp3");
    assert_eq!(extension_for_mime("application/octet-stream"), ".bin");
}

#[test]
fn retry_delay_doubles_up_to_the_maximum() {
    let policy = RetryPolicy::default();
    assert_eq!(retry_delay_seconds(0, policy), 10);
    assert_eq!(retry_delay_seconds(1, policy), 10);
    assert_eq!(retry_delay_seconds(2, policy), 20);
    assert_eq!(retry_delay_seconds(4, policy), 80);
    assert_eq!(retry_delay_seconds(6, policy), 300);
    assert_eq!(retry_delay_seconds(100, policy), 300);
    let huge = RetryPolicy { base_delay_secs: u64::MAX, max_delay_secs: u64::MAX };
    assert_eq!(retry_delay_seconds(3, huge), i64::MAX);
}

#[test]
fn retry_delays_never_shrink() {
    let policy = RetryPolicy { base_delay_secs: 7, max_delay_secs: 100 };
    let mut last = 0;
    for attempts in -2..12 {
        let d = retry_delay_seconds(attempts, policy);
        assert!(d >= last && d <= 100);
        last = d;
    }
}

#[test]
fn next_retry_is_now_plus_the_delay() {
    let policy = RetryPolicy::default();
    assert_eq!(next_retry_at("2026-05-27T21:30:15+08:00", 2, policy), "2026-05-27T21:30:35+08:00");
    assert_eq!(stale_cutoff("2026-05-27T21:30:15Z", 900), "2026-05-27T21:15:15Z");
}

#[test]
fn message_key_falls_back_to_the_row_id() {
    let mut m = stored("text");
    assert_eq!(message_key(&m), "msg_text_1");
    m.wechat_msg_id = None;
    assert_eq!(message_key(&m), "message_7");
}

#[test]
fn plans_follow_the_message_type() {
    let mut text = stored("text");
    text.content_text = Some("see https://example.com/a".to_string());
    match plan_stored_message(&text).unwrap() {
        ProcessingPlan::Text { content, urls } => {
            assert_eq!(content, "see https://example.com/a");
            assert_eq!(urls, vec!["https://example.com/a".to_string()]);
        }
        _ => panic!("expected text plan"),
    }
    let err = plan_stored_message(&stored("location")).unwrap_err();
    assert_eq!(err.describe(), "external payload invalid: location_lat missing");
    let mut loc = stored("location");
    loc.location_lat = Some("23.1".to_string());
    let err = plan_stored_message(&loc).unwrap_err();
    assert_eq!(err.describe(), "external payload invalid: location_lng missing");
    assert!(matches!(plan_stored_message(&stored("voice")).unwrap(), ProcessingPlan::Media));
    let err = plan_stored_message(&stored("event")).unwrap_err();
    assert_eq!(err.describe(), "unsupported message type: worker does not process event yet");
    assert!(matches!(plan_stored_message(&stored("link")).unwrap_err(), BridgeError::ExternalPayloadInvalid(_)));
}

#[test]
fn text_artifact_appends_reader_content() {
    let m = stored("text");
    let plain = text_artifact(&m, "hello worker", &Vec::new());
    assert_eq!(plain.markdown_body, "hello worker");
    assert!(plain.external_service.is_none());
    let readings = vec![LinkReading {
        url: "https://example.com/a".to_string(),
        markdown: "  page  ".to_string(),
        payload_path: Some("p/text-link-1.jina-reader.md".to_string()),
    }];
    let with_links = text_artifact(&m, " see it ", &readings);
    assert_eq!(
        with_links.markdown_body,
        "## Original Text\n\nsee it\n\n## Reader Content\n\n### https://example.com/a\n\npage\n\n"
    );
    assert_eq!(with_links.external_service.as_deref(), Some("jina_reader"));
    assert_eq!(with_links.processed_payload_paths, vec!["p/text-link-1.jina-reader.md".to_string()]);
}

#[test]
fn metadata_takes_the_artifacts_provider() {
    let m = stored("image");
    let mut artifact = ProcessedArtifact::new("k", ProcessedArtifactKind::Image, "x");
    artifact.provider = Some("gemini".to_string());
    let meta = metadata_from_stored_message(&m, "0.4.1", &artifact);
    assert_eq!(meta.provider.as_deref(), Some("gemini"));
    assert_eq!(meta.raw_dir.as_deref(), Some("data/raw/msg_text_1"));
    assert_eq!(meta.bridge_version, "0.4.1");
}

#[test]
fn noop_clients_refuse() {
    let err = NoopExternalClients.read_link("https://example.com").unwrap_err();
    assert_eq!(err.describe(), "external payload invalid: jina reader client not configured");
    let err = NoopExternalClients.reverse_geocode("1", "2").unwrap_err();
    assert!(matches!(err, BridgeError::ExternalPayloadInvalid(_)));
    let err = NoopMediaJobProcessor.process_media_message(&stored("image")).unwrap_err();
    assert_eq!(err.describe(), "unsupported message type: media processor not configured for image");
}

#[test]
fn media_plan_names_the_download_and_prompt() {
    let mut m = stored("image");
    let prompts = MediaPrompts::new().with_prompts("describe image for test", "v", "w");
    assert!(matches!(plan_media_message(&m, &prompts, "data/raw").unwrap_err(), BridgeError::ExternalPayloadInvalid(_)));
    m.media_id = Some("media-image-1".to_string());
    let plan = plan_media_message(&m, &prompts, "data/raw").unwrap();
    assert_eq!(plan.kind, MediaKind::Image);
    assert_eq!(plan.mime_type, "image/jpeg");
    assert_eq!(plan.prompt, "describe image for test");
    assert_eq!(plan.target_path, "data/raw/msg_text_1/media.original.jpg");
    let artifact = media_artifact(
        &m,
        &plan,
        LlmOutput { provider: "gemini".to_string(), model: "gemini-test".to_string(), text: "fake image summary".to_string() },
        plan.target_path.clone(),
    );
    assert_eq!(artifact.kind, ProcessedArtifactKind::Image);
    assert_eq!(artifact.markdown_body, "fake image summary");
    assert_eq!(artifact.raw_payload_paths, vec!["data/raw/msg_text_1/media.original.jpg".to_string()]);
    let mut other = stored("file");
    other.media_id = Some("x".to_string());
    assert!(matches!(plan_media_message(&other, &prompts, "r").unwrap_err(), BridgeError::MessageUnsupported(_)));
}
