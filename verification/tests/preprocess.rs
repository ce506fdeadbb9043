use sage_wiki_bridge::enrich::LocationSummary;
use sage_wiki_bridge::preprocess::artifact::{ProcessedArtifact, ProcessedArtifactKind};
use sage_wiki_bridge::preprocess::link::process_link;
use sage_wiki_bridge::preprocess::location::process_location;
use sage_wiki_bridge::preprocess::media::{ModelPreprocessOutput, process_model_output};
use sage_wiki_bridge::preprocess::text::process_text;
use sage_wiki_bridge::text::replace_all;
use sage_wiki_bridge::wechat::message::{CommonFields, LinkMessage, LocationMessage, TextMessage};
use sage_wiki_bridge::wechat::types::{OpenId, UrlString, WechatMsgId};

fn common(msg_id: Option<&str>) -> CommonFields {
    CommonFields {
        to_user_name: "gh_bridge".to_string(),
        from_user_name: OpenId::new("openid-user-1"),
        create_time: 1780000001,
        msg_id: msg_id.map(WechatMsgId::new),
    }
}

#[test]
fn creates_minimal_artifact() {
    let artifact = ProcessedArtifact::new("msg_1", ProcessedArtifactKind::Text, "hello");

    assert_eq!(artifact.message_key, "msg_1");
    assert_eq!(artifact.kind, ProcessedArtifactKind::Text);
    assert_eq!(artifact.markdown_body, "hello");
    assert!(artifact.provider.is_none());
}

#[test]
fn media_preprocessor_wraps_model_output() {
    let artifact = process_model_output(ModelPreprocessOutput {
        message_key: "msg_image".to_string(),
        kind: ProcessedArtifactKind::Image,
        markdown_body: "image description".to_string(),
        provider: "gemini".to_string(),
        model: "gemini-aistudio-configured".to_string(),
        raw_payload_paths: vec!["data/raw/msg/media.jpg".to_string()],
        processed_payload_paths: vec!["data/processed/msg/llm.response.json".to_string()],
    });

    assert_eq!(artifact.kind, ProcessedArtifactKind::Image);
    assert_eq!(artifact.provider.as_deref(), Some("gemini"));
    assert_eq!(artifact.model.as_deref(), Some("gemini-aistudio-configured"));
    assert_eq!(artifact.raw_payload_paths.len(), 1);
    assert_eq!(artifact.processed_payload_paths.len(), 1);
}

#[test]
fn text_preprocessor_passes_content_through() {
    let text = TextMessage {
        common: common(Some("1000000000000000001")),
        content: "把这条知识存进 sage-wiki".to_string(),
    };

    let artifact = process_text(&text);

    assert_eq!(artifact.message_key, "1000000000000000001");
    assert_eq!(artifact.kind, ProcessedArtifactKind::Text);
    assert_eq!(artifact.markdown_body, "把这条知识存进 sage-wiki");
}

#[test]
fn message_without_id_is_keyed_by_time_and_type() {
    let text = TextMessage { common: common(None), content: "x".to_string() };
    assert_eq!(process_text(&text).message_key, "1780000001_text");
}

#[test]
fn link_preprocessor_replaces_url_with_reader_content() {
    let link = LinkMessage {
        common: common(Some("msg_link_1")),
        title: Some("示例文章".to_string()),
        description: Some("测试链接".to_string()),
        url: UrlString::new("https://example.com/article"),
    };

    let artifact = process_link(
        &link,
        "# 示例\n\n这是 Jina Reader 返回的 Markdown 内容\n",
        Some("data/processed/msg/link.jina-reader.md".to_string()),
    );

    assert_eq!(artifact.kind, ProcessedArtifactKind::Link);
    assert_eq!(artifact.external_service.as_deref(), Some("jina_reader"));
    assert!(artifact.markdown_body.contains("## Reader Content"));
    assert!(artifact.markdown_body.contains("这是 Jina Reader 返回的 Markdown 内容"));
    assert_eq!(artifact.processed_payload_paths.len(), 1);
    assert_eq!(artifact.summary.as_deref(), Some("示例文章"));
}

#[test]
fn location_preprocessor_renders_lbs_summary() {
    let location = LocationMessage {
        common: common(Some("msg_location_1")),
        latitude: "23.134521".to_string(),
        longitude: "113.358803".to_string(),
        scale: Some(16),
        label: Some("广东省广州市天河区示例路".to_string()),
    };
    let summary = LocationSummary {
        address: Some("广东省广州市天河区示例路1号".to_string()),
        province: Some("广东省".to_string()),
        city: Some("广州市".to_string()),
        district: Some("天河区".to_string()),
        adcode: Some("440106".to_string()),
        city_code: Some("020".to_string()),
    };

    let artifact = process_location(&location, &summary, Some("data/raw/msg/location.tencent-lbs.json".to_string()));

    assert_eq!(artifact.kind, ProcessedArtifactKind::Location);
    assert_eq!(artifact.external_service.as_deref(), Some("tencent_lbs"));
    assert!(artifact.markdown_body.contains("Coordinates: 23.134521, 113.358803"));
    assert!(artifact.markdown_body.contains("Adcode: 440106"));
    assert!(artifact.markdown_body.contains("- Administrative Area: 广东省 / 广州市 / 天河区\n"));
    assert_eq!(artifact.raw_payload_paths.len(), 1);
}

#[test]
fn location_admin_area_skips_missing_parts() {
    let location = LocationMessage {
        common: common(Some("m")),
        latitude: "1".to_string(),
        longitude: "2".to_string(),
        scale: None,
        label: None,
    };
    let summary = LocationSummary {
        address: None,
        province: None,
        city: Some("广州市".to_string()),
        district: Some("天河区".to_string()),
        adcode: None,
        city_code: None,
    };
    let artifact = process_location(&location, &summary, None);
    assert_eq!(
        artifact.markdown_body,
        "## Location\n\n- Coordinates: 1, 2\n- Administrative Area: 广州市 / 天河区\n"
    );
    assert!(artifact.raw_payload_paths.is_empty());
}

#[test]
fn replace_all_replaces_every_occurrence() {
    assert_eq!(replace_all("a-b-c", "-", "+"), "a+b+c");
    assert_eq!(replace_all("aaa", "aa", "b"), "ba");
    assert_eq!(replace_all("abc", "x", "y"), "abc");
}

#[test]
fn replace_all_with_empty_pattern_surrounds_each_char() {
    assert_eq!(replace_all("ab", "", "X"), "XaXbX");
    assert_eq!(replace_all("", "", "X"), "X");
    assert_eq!(replace_all("ab", "", "X"), "ab".replace("", "X"));
}
