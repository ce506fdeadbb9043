use sage_wiki_bridge::error::BridgeError;
use sage_wiki_bridge::wechat::crypto::{
    decode_encoding_aes_key, decrypt_callback_message, encrypt_callback_message_for_test,
    encrypt_reply_message, split_plaintext,
};
use sage_wiki_bridge::wechat::message::{IncomingMessage, RawWechatMessage};
use sage_wiki_bridge::wechat::oauth::{OAuthAccessTokenResponse, WechatOAuthConfig, oauth_subject_from};
use sage_wiki_bridge::wechat::signature::{
    calculate_encrypted_signature, calculate_signature, verify_encrypted_signature, verify_signature,
};
use sage_wiki_bridge::wechat::types::{OpenId, OpenIdHash};

const TOKEN: &str = "bridge-token";
const AES_KEY: &str = "AAAAAAAAAAAAAAAAAAAAAAAAAAAAAAAAAAAAAAAAAAA";
const APP_ID: &str = "wx1234567890abcdef";
const TS: &str = "1780000000";
const NONCE: &str = "nonce1";
const XML: &str = "<xml><ToUserName><![CDATA[gh_bridge]]></ToUserName><FromUserName><![CDATA[openid-user-1]]></FromUserName><CreateTime>1780000001</CreateTime><MsgType><![CDATA[text]]></MsgType><Content><![CDATA[hello]]></Content><MsgId>1000000000000000001</MsgId></xml>";

#[test]
fn encrypted_callback_round_trip_decrypts_xml() {
    let (encrypted, signature) =
        encrypt_callback_message_for_test(TOKEN, AES_KEY, APP_ID, TS, NONCE, XML).unwrap();

    let decrypted =
        decrypt_callback_message(TOKEN, AES_KEY, APP_ID, TS, NONCE, &signature, &encrypted).unwrap();

    assert_eq!(decrypted.xml, XML);
    assert_eq!(decrypted.app_id, APP_ID);
}

#[test]
fn encrypted_callback_rejects_bad_signature() {
    let (encrypted, _signature) =
        encrypt_callback_message_for_test(TOKEN, AES_KEY, APP_ID, TS, NONCE, XML).unwrap();

    let err = decrypt_callback_message(TOKEN, AES_KEY, APP_ID, TS, NONCE, "bad", &encrypted).unwrap_err();

    assert!(matches!(err, BridgeError::WechatSignatureInvalid));
}

#[test]
fn decodes_wechat_aes_key_with_non_canonical_trailing_bits() {
    let key = format!("{}H", "A".repeat(42));

    let decoded = decode_encoding_aes_key(&key).unwrap();

    assert_eq!(decoded.len(), 32);
    assert_eq!(decoded[31], 1);
    assert!(decoded[..31].iter().all(|b| *b == 0));
}

#[test]
fn encrypted_reply_round_trip_decrypts_xml() {
    let reply_xml = encrypt_reply_message(TOKEN, AES_KEY, APP_ID, TS, NONCE, XML).unwrap();
    let start = reply_xml.find("<Encrypt><![CDATA[").unwrap() + "<Encrypt><![CDATA[".len();
    let end = reply_xml[start..].find("]]>").unwrap() + start;
    let payload = &reply_xml[start..end];
    let signature = calculate_encrypted_signature(TOKEN, TS, NONCE, payload);
    assert!(reply_xml.contains(&signature));
    let decrypted = decrypt_callback_message(TOKEN, AES_KEY, APP_ID, TS, NONCE, &signature, payload).unwrap();
    assert_eq!(decrypted.xml, XML);
}

#[test]
fn decryption_checks_the_app_id() {
    let (encrypted, signature) =
        encrypt_callback_message_for_test(TOKEN, AES_KEY, APP_ID, TS, NONCE, XML).unwrap();
    let err = decrypt_callback_message(TOKEN, AES_KEY, "wx-other", TS, NONCE, &signature, &encrypted);
    assert!(err.is_err());
}

#[test]
fn short_aes_key_is_a_config_error() {
    let err = decode_encoding_aes_key("short").unwrap_err();
    assert!(matches!(err, BridgeError::Config(_)));
}

#[test]
fn verifies_valid_signature() {
    let token = "bridge-token";
    let timestamp = "1780000000";
    let nonce = "abc123";
    let signature = calculate_signature(token, timestamp, nonce);

    assert!(verify_signature(token, timestamp, nonce, &signature));
}

#[test]
fn rejects_invalid_signature() {
    assert!(!verify_signature("bridge-token", "1780000000", "abc123", "not-a-valid-signature"));
}

#[test]
fn verifies_encrypted_signature() {
    let signature = calculate_encrypted_signature("bridge-token", "1780000000", "abc123", "encrypted");

    assert!(verify_encrypted_signature("bridge-token", "1780000000", "abc123", "encrypted", &signature));
    assert!(!verify_encrypted_signature("bridge-token", "1780000000", "abc123", "changed", &signature));
}

#[test]
fn signature_is_sha1_of_sorted_parts() {
    // sha1("1780000000abc123bridge-token") in lower-case hexadecimal, 40 digits.
    let signature = calculate_signature("bridge-token", "1780000000", "abc123");
    assert_eq!(signature, "227986518e6def2b5a6e9440e8fb0da7bbc9e1cf");
    assert_ne!(signature, calculate_signature("bridge-token", "1780000001", "abc123"));
    assert_eq!(calculate_signature("c", "a", "b"), calculate_signature("a", "b", "c"));
}

fn raw(msg_type: &str) -> RawWechatMessage {
    RawWechatMessage {
        to_user_name: "gh_bridge".to_string(),
        from_user_name: "openid-user-1".to_string(),
        create_time: 1780000001,
        msg_type: msg_type.to_string(),
        msg_id: Some("1000000000000000001".to_string()),
        content: None,
        pic_url: None,
        media_id: None,
        format: None,
        recognition: None,
        thumb_media_id: None,
        location_x: None,
        location_y: None,
        scale: None,
        label: None,
        title: None,
        description: None,
        url: None,
    }
}

#[test]
fn parses_text_fields() {
    let mut r = raw("text");
    r.content = Some("hello".to_string());
    let message = IncomingMessage::try_from_raw(&r).unwrap();
    match &message {
        IncomingMessage::Text(t) => {
            assert_eq!(t.content, "hello");
            assert_eq!(t.common.from_user_name.as_str(), "openid-user-1");
            assert_eq!(t.common.msg_id.as_ref().unwrap().as_str(), "1000000000000000001");
        }
        _ => panic!("expected text"),
    }
    assert_eq!(message.msg_type(), "text");
    assert!(message.is_supported());
    assert_eq!(message.content_text(), Some("hello"));
}

#[test]
fn parses_location_with_latitude_then_longitude() {
    let mut r = raw("location");
    r.location_x = Some("23.134521".to_string());
    r.location_y = Some("113.358803".to_string());
    r.scale = Some(16);
    match IncomingMessage::try_from_raw(&r).unwrap() {
        IncomingMessage::Location(l) => {
            assert_eq!(l.latitude, "23.134521");
            assert_eq!(l.longitude, "113.358803");
            assert_eq!(l.scale, Some(16));
        }
        _ => panic!("expected location"),
    }
}

#[test]
fn media_without_media_id_is_invalid_and_unknown_types_are_kept() {
    let err = IncomingMessage::try_from_raw(&raw("image")).unwrap_err();
    assert!(matches!(err, BridgeError::WechatXmlInvalid(_)));
    let message = IncomingMessage::try_from_raw(&raw("event")).unwrap();
    assert!(!message.is_supported());
    assert_eq!(message.msg_type(), "event");
}

#[test]
fn openid_hash_is_prefixed_sha256() {
    let hash = OpenIdHash::sha256_for_display(&OpenId::new("openid-user-1"));
    assert!(hash.as_str().starts_with("sha256:"));
    assert_eq!(hash.as_str().len(), "sha256:".len() + 64);
    let other = OpenIdHash::sha256_for_display(&OpenId::new("openid-user-2"));
    assert_ne!(hash.as_str(), other.as_str());
}

#[test]
fn builds_snsapi_base_authorize_url() {
    let config = WechatOAuthConfig {
        app_id: "wx-app-id".to_string(),
        app_secret: "secret".to_string(),
        api_base: "https://api.weixin.qq.com".to_string(),
        authorize_base: "https://open.weixin.qq.com/connect/oauth2/authorize".to_string(),
    };

    let url = config
        .authorize_url("https://bridge.example.com/admin/whitelist/join?key=join", "join")
        .unwrap();

    assert!(url.ends_with("#wechat_redirect"));
    assert!(url.contains("scope=snsapi_base"));
    assert!(url.contains("appid=wx-app-id"));
    assert!(url.contains("redirect_uri=https%3A%2F%2Fbridge.example.com%2Fadmin%2Fwhitelist%2Fjoin%3Fkey%3Djoin"));
}

#[test]
fn authorize_url_needs_a_url_base() {
    let config = WechatOAuthConfig {
        app_id: "wx".to_string(),
        app_secret: "s".to_string(),
        api_base: "https://api.weixin.qq.com/".to_string(),
        authorize_base: "not a url".to_string(),
    };
    assert!(matches!(config.authorize_url("r", "s").unwrap_err(), BridgeError::Config(_)));
    assert_eq!(config.exchange_url(), "https://api.weixin.qq.com/sns/oauth2/access_token");
}

#[test]
fn oauth_answers_are_read() {
    let ok = oauth_subject_from(OAuthAccessTokenResponse {
        openid: Some("openid-oauth-1".to_string()),
        unionid: Some("unionid-1".to_string()),
        scope: Some("snsapi_base".to_string()),
        errcode: None,
        errmsg: None,
    })
    .unwrap();
    assert_eq!(ok.openid, "openid-oauth-1");
    assert_eq!(ok.unionid.as_deref(), Some("unionid-1"));
    let err = oauth_subject_from(OAuthAccessTokenResponse {
        openid: None,
        unionid: None,
        scope: None,
        errcode: Some(40029),
        errmsg: Some("invalid code".to_string()),
    })
    .unwrap_err();
    assert_eq!(err.describe(), "external request failed: WeChat OAuth errcode 40029: invalid code");
    let err = oauth_subject_from(OAuthAccessTokenResponse {
        openid: None,
        unionid: None,
        scope: None,
        errcode: None,
        errmsg: None,
    })
    .unwrap_err();
    assert!(matches!(err, BridgeError::ExternalPayloadInvalid(_)));
}

#[test]
fn encryption_matches_a_known_aes_cbc_vector() {
    // AES-256-CBC under the all-zero key of the 43-letter "A" encoding key,
    // of "0123456789abcdef" + length + "<xml>hi</xml>" + app id, in base64.
    let expected = "uMMzGtqcnpOzXOYBwDQNrVJbzLHaNe8hUbzqB2N8bZS2uGt5y4cqNcYDAOTkiJQnii4a3OdBS87SlRGVrI6iqg==";
    let (payload, signature) =
        encrypt_callback_message_for_test(TOKEN, AES_KEY, APP_ID, TS, NONCE, "<xml>hi</xml>").unwrap();
    assert_eq!(payload, expected);
    assert_eq!(signature, "0936cb46007e512860aba1072c880ecdf56762b1");
    let decrypted = decrypt_callback_message(TOKEN, AES_KEY, APP_ID, TS, NONCE, &signature, expected).unwrap();
    assert_eq!(decrypted.xml, "<xml>hi</xml>");
    assert_eq!(decrypted.app_id, APP_ID);
}

#[test]
fn decrypted_frames_split_into_utf8_message_and_app_id() {
    let mut frame = b"0123456789abcdef".to_vec();
    frame.extend_from_slice(&[0, 0, 0, 6]);
    frame.extend_from_slice("你好".as_bytes());
    frame.extend_from_slice(b"wx1");
    assert_eq!(split_plaintext(&frame).unwrap(), ("你好".to_string(), "wx1".to_string()));
    let mut bad = b"0123456789abcdef".to_vec();
    bad.extend_from_slice(&[0, 0, 0, 2, 0xff, 0xfe]);
    assert!(split_plaintext(&bad).is_err());
    assert!(split_plaintext(b"short").is_err());
}
