use sage_wiki_bridge::archive::ArchiveRecord;
use sage_wiki_bridge::error::BridgeError;
use sage_wiki_bridge::receiver::{
    callback_response, check_plain_signature, decide, encrypted_credentials, is_encrypted_callback, is_whitelist_join_command,
    message_insert, passive_text_reply, raw_dir_for, request_id, sanitize_cdata, verify_callback,
    CallbackQuery, ReceiverConfig, VerifyQuery,
};
use sage_wiki_bridge::wechat::message::{CommonFields, IncomingMessage, LocationMessage, TextMessage, UnsupportedMessage};
use sage_wiki_bridge::wechat::signature::calculate_signature;
use sage_wiki_bridge::wechat::types::{OpenId, WechatMsgId};

fn config() -> ReceiverConfig {
    ReceiverConfig {
        wechat_token: "bridge-token".to_string(),
        callback_path: "/wechat/callback".to_string(),
        encrypted_callback_enabled: true,
        wechat_app_id: Some("wx123".to_string()),
        wechat_encoding_aes_key: Some(String::new()),
        honeypot_reply_enabled: true,
        honeypot_reply_text: "Message received.".to_string(),
        whitelist_join_command: Some(" /join ".to_string()),
        request_body_limit_bytes: 1024,
    }
}

fn common() -> CommonFields {
    CommonFields {
        to_user_name: "gh_bridge".to_string(),
        from_user_name: OpenId::new("openid-user-1"),
        create_time: 1780000001,
        msg_id: Some(WechatMsgId::new("m1")),
    }
}

fn text(content: &str) -> IncomingMessage {
    IncomingMessage::Text(TextMessage { common: common(), content: content.to_string() })
}

#[test]
fn endpoint_check_echoes_when_signed() {
    let signature = calculate_signature("bridge-token", "1780000000", "n");
    let ok = VerifyQuery { signature, timestamp: "1780000000".to_string(), nonce: "n".to_string(), echostr: "echo".to_string() };
    assert_eq!(verify_callback(&config(), &ok).as_deref(), Some("echo"));
    let bad = VerifyQuery { signature: "x".to_string(), ..ok };
    assert!(verify_callback(&config(), &bad).is_none());
}

#[test]
fn plain_callbacks_need_a_valid_signature() {
    let signature = calculate_signature("bridge-token", "1", "n");
    let mut q = CallbackQuery { signature: Some(signature), msg_signature: None, timestamp: "1".to_string(), nonce: "n".to_string(), encrypt_type: None };
    assert!(check_plain_signature(&config(), &q).is_ok());
    assert!(!is_encrypted_callback(&config(), &q));
    q.signature = None;
    assert!(matches!(check_plain_signature(&config(), &q).unwrap_err(), BridgeError::WechatSignatureInvalid));
    q.encrypt_type = Some("aes".to_string());
    assert!(is_encrypted_callback(&config(), &q));
}

#[test]
fn encrypted_callbacks_need_their_credentials() {
    let q = CallbackQuery { signature: None, msg_signature: Some("s".to_string()), timestamp: "1".to_string(), nonce: "n".to_string(), encrypt_type: Some("aes".to_string()) };
    let err = encrypted_credentials(&config(), &q).unwrap_err();
    assert_eq!(err.describe(), "configuration error: WECHAT_ENCODING_AES_KEY is required for encrypted callback");
    let mut c = config();
    c.wechat_encoding_aes_key = Some("k".to_string());
    let creds = encrypted_credentials(&c, &q).unwrap();
    assert_eq!(creds.app_id, "wx123");
    assert_eq!(creds.msg_signature, "s");
    let q2 = CallbackQuery { msg_signature: None, ..q };
    assert!(matches!(encrypted_credentials(&c, &q2).unwrap_err(), BridgeError::WechatSignatureInvalid));
}

#[test]
fn join_command_whitelists_without_a_job() {
    let d = decide(&text("/join"), false, &config());
    assert_eq!(d.status, "whitelisted");
    assert!(d.authorized && d.add_to_whitelist && !d.create_job && !d.honeypot_reply);
    assert!(is_whitelist_join_command(&text("  /join\n"), Some("/join")));
    assert!(!is_whitelist_join_command(&text("/join"), Some("   ")));
}

#[test]
fn whitelisted_supported_messages_are_queued_and_others_ignored() {
    let d = decide(&text("hello"), true, &config());
    assert_eq!(d.status, "queued");
    assert!(d.create_job && !d.honeypot_reply);
    let d = decide(&text("hello"), false, &config());
    assert_eq!(d.status, "ignored");
    assert!(!d.create_job && d.honeypot_reply && !d.authorized);
    let event = IncomingMessage::Unsupported(UnsupportedMessage { common: common(), msg_type: "event".to_string() });
    let d = decide(&event, true, &config());
    assert_eq!(d.status, "ignored");
    assert!(!d.create_job && !d.honeypot_reply && d.authorized);
}

#[test]
fn passive_reply_escapes_cdata() {
    assert_eq!(sanitize_cdata("a]]>b"), "a]]]]><![CDATA[>b");
    let reply = passive_text_reply(&OpenId::new("u"), "gh", "x]]>y", 1780000000);
    assert_eq!(
        reply,
        "<xml><ToUserName><![CDATA[u]]></ToUserName><FromUserName><![CDATA[gh]]></FromUserName><CreateTime>1780000000</CreateTime><MsgType><![CDATA[text]]></MsgType><Content><![CDATA[x]]]]><![CDATA[>y]]></Content></xml>"
    );
}

#[test]
fn request_ids_and_raw_dirs() {
    assert_eq!(request_id("1780000000", "n1"), "req_1780000000_n1");
    let kept = ArchiveRecord { path: Some("data/raw/req_1/callback.xml".to_string()), sha256: String::new(), size_bytes: 0 };
    assert_eq!(raw_dir_for(&kept, "req_1"), "data/raw/req_1");
    let hashed = ArchiveRecord { path: None, sha256: String::new(), size_bytes: 0 };
    assert_eq!(raw_dir_for(&hashed, "req_1"), "raw://req_1");
}

#[test]
fn stored_record_carries_the_typed_fields() {
    let location = IncomingMessage::Location(LocationMessage {
        common: common(),
        latitude: "23.1".to_string(),
        longitude: "113.3".to_string(),
        scale: Some(16),
        label: Some("here".to_string()),
    });
    let d = decide(&location, true, &config());
    let insert = message_insert("req_1", "raw://req_1", &location, "sha256:x", "2026-05-27T00:00:00Z", &d);
    assert_eq!(insert.message_type, "location");
    assert_eq!(insert.location_lat.as_deref(), Some("23.1"));
    assert_eq!(insert.location_lng.as_deref(), Some("113.3"));
    assert_eq!(insert.location_scale, Some(16));
    assert_eq!(insert.wechat_msg_id.as_deref(), Some("m1"));
    assert_eq!(insert.from_openid, "openid-user-1");
    assert_eq!(insert.status, "queued");
    assert!(insert.content_text.is_none() && insert.media_id.is_none());
}

#[test]
fn callback_outcomes_map_to_http_answers() {
    let ok = callback_response(Ok(Some("<xml/>".to_string())));
    assert_eq!((ok.status, ok.body.as_str()), (200, "<xml/>"));
    let empty = callback_response(Ok(None));
    assert_eq!((empty.status, empty.body.as_str()), (200, ""));
    let forbidden = callback_response(Err(BridgeError::WechatSignatureInvalid));
    assert_eq!((forbidden.status, forbidden.body.as_str()), (403, ""));
    let bad = callback_response(Err(BridgeError::WechatXmlInvalid("eof".to_string())));
    assert_eq!((bad.status, bad.body.as_str()), (400, ""));
}
