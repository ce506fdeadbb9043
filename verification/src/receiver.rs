//! The WeChat callback: which requests are accepted, what is stored of each
//! message, whether a job is queued, and what is replied.
//!
//! Serving HTTP, parsing XML and talking to the store are left to the
//! caller, which hands the library plain values.
use vstd::prelude::*;

use crate::archive::ArchiveRecord;
use crate::error::{BridgeError, ErrorKind, ErrorView};
use crate::store::MessageInsert;
use crate::text::{i64_to_dec, push_str, replace_all, str_eq, string_from, trim};
use crate::wechat::message::{IncomingMessage, opt_view};
use crate::wechat::signature::{signature_spec, verify_signature};
use crate::wechat::types::OpenId;

verus! {

/// The settings of the callback endpoint.
#[derive(Debug, Clone, PartialEq, Eq)]
pub struct ReceiverConfig {
    pub wechat_token: String,
    pub callback_path: String,
    pub encrypted_callback_enabled: bool,
    pub wechat_app_id: Option<String>,
    pub wechat_encoding_aes_key: Option<String>,
    pub honeypot_reply_enabled: bool,
    pub honeypot_reply_text: String,
    pub whitelist_join_command: Option<String>,
    pub request_body_limit_bytes: usize,
}

/// The query of WeChat's endpoint check.
#[derive(Debug, Clone, PartialEq, Eq)]
pub struct VerifyQuery {
    pub signature: String,
    pub timestamp: String,
    pub nonce: String,
    pub echostr: String,
}

/// The query of a message callback.
#[derive(Debug, Clone, PartialEq, Eq)]
pub struct CallbackQuery {
    pub signature: Option<String>,
    pub msg_signature: Option<String>,
    pub timestamp: String,
    pub nonce: String,
    pub encrypt_type: Option<String>,
}

/// The answer to WeChat's endpoint check: the echo string when the
/// signature is right, nothing (a refusal) otherwise.
pub fn verify_callback(config: &ReceiverConfig, query: &VerifyQuery) -> (r: Option<String>)
    ensures
        match r {
            Some(e) => query.signature@ == signature_spec(
                seq![config.wechat_token@, query.timestamp@, query.nonce@],
            ) && e@ == query.echostr@,
            None => query.signature@ != signature_spec(
                seq![config.wechat_token@, query.timestamp@, query.nonce@],
            ),
        },
{
    if verify_signature(
        config.wechat_token.as_str(),
        query.timestamp.as_str(),
        query.nonce.as_str(),
        query.signature.as_str(),
    ) {
        Some(string_from(query.echostr.as_str()))
    } else {
        None
    }
}

/// A callback is handled as encrypted when encryption is enabled and the
/// query asks for `aes`.
pub open spec fn encrypted_spec(config: ReceiverConfig, query: CallbackQuery) -> bool {
    config.encrypted_callback_enabled && opt_view(query.encrypt_type) == Some("aes"@)
}

/// Whether a callback is handled as encrypted.
pub fn is_encrypted_callback(config: &ReceiverConfig, query: &CallbackQuery) -> (r: bool)
    ensures
        r == encrypted_spec(*config, *query),
{
    config.encrypted_callback_enabled && match &query.encrypt_type {
        Some(t) => str_eq(t.as_str(), "aes"),
        None => false,
    }
}

/// Checks the signature of a plain callback: it must be given and right.
pub fn check_plain_signature(config: &ReceiverConfig, query: &CallbackQuery) -> (r: Result<(), BridgeError>)
    ensures
        r is Ok <==> (query.signature matches Some(s) && s@ == signature_spec(
            seq![config.wechat_token@, query.timestamp@, query.nonce@],
        )),
        r matches Err(e) ==> e@ == (ErrorKind::WechatSignatureInvalid, Seq::<char>::empty()),
{
    match &query.signature {
        None => Err(BridgeError::WechatSignatureInvalid),
        Some(s) => if verify_signature(
            config.wechat_token.as_str(),
            query.timestamp.as_str(),
            query.nonce.as_str(),
            s.as_str(),
        ) {
            Ok(())
        } else {
            Err(BridgeError::WechatSignatureInvalid)
        },
    }
}

/// What an encrypted callback needs: the app id, the encoding key and the
/// message signature.
#[derive(Debug, Clone, PartialEq, Eq)]
pub struct EncryptedCredentials {
    pub app_id: String,
    pub encoding_aes_key: String,
    pub msg_signature: String,
}

/// A setting that is present and not empty.
pub open spec fn non_empty(o: Option<String>) -> Option<Seq<char>> {
    match o {
        Some(s) => if s@.len() > 0 {
            Some(s@)
        } else {
            None
        },
        None => None,
    }
}

/// The credentials of an encrypted callback, or the first thing missing:
/// the app id, the encoding key (both configuration errors), the message
/// signature (a signature error).
pub open spec fn credentials_spec(config: ReceiverConfig, query: CallbackQuery) -> Result<(Seq<char>, Seq<char>, Seq<char>), ErrorView> {
    match non_empty(config.wechat_app_id) {
        None => Err((ErrorKind::Config, "WECHAT_APP_ID is required for encrypted callback"@)),
        Some(app_id) => match non_empty(config.wechat_encoding_aes_key) {
            None => Err(
                (ErrorKind::Config, "WECHAT_ENCODING_AES_KEY is required for encrypted callback"@),
            ),
            Some(key) => match query.msg_signature {
                None => Err((ErrorKind::WechatSignatureInvalid, Seq::empty())),
                Some(sig) => Ok((app_id, key, sig@)),
            },
        },
    }
}

fn non_empty_of(o: &Option<String>) -> (r: Option<String>)
    ensures
        opt_view(r) == non_empty(*o),
{
    match o {
        Some(s) => if s.as_str().is_empty() {
            None
        } else {
            Some(string_from(s.as_str()))
        },
        None => None,
    }
}

/// The credentials of an encrypted callback (see `credentials_spec`).
pub fn encrypted_credentials(config: &ReceiverConfig, query: &CallbackQuery) -> (r: Result<EncryptedCredentials, BridgeError>)
    ensures
        match r {
            Ok(c) => credentials_spec(*config, *query) == Ok::<
                (Seq<char>, Seq<char>, Seq<char>),
                ErrorView,
            >((c.app_id@, c.encoding_aes_key@, c.msg_signature@)),
            Err(e) => credentials_spec(*config, *query) == Err::<
                (Seq<char>, Seq<char>, Seq<char>),
                ErrorView,
            >(e@),
        },
{
    let app_id = match non_empty_of(&config.wechat_app_id) {
        Some(a) => a,
        None => return Err(
            BridgeError::Config(string_from("WECHAT_APP_ID is required for encrypted callback")),
        ),
    };
    let key = match non_empty_of(&config.wechat_encoding_aes_key) {
        Some(k) => k,
        None => return Err(
            BridgeError::Config(
                string_from("WECHAT_ENCODING_AES_KEY is required for encrypted callback"),
            ),
        ),
    };
    match &query.msg_signature {
        None => Err(BridgeError::WechatSignatureInvalid),
        Some(sig) => Ok(
            EncryptedCredentials {
                app_id,
                encoding_aes_key: key,
                msg_signature: string_from(sig.as_str()),
            },
        ),
    }
}

/// The id of a callback request: `req_{timestamp}_{nonce}`.
pub open spec fn request_id_spec(timestamp: Seq<char>, nonce: Seq<char>) -> Seq<char> {
    "req_"@ + timestamp + "_"@ + nonce
}

/// The id of a callback request (see `request_id_spec`).
pub fn request_id(timestamp: &str, nonce: &str) -> (r: String)
    ensures
        r@ == request_id_spec(timestamp@, nonce@),
{
    let mut s = string_from("req_");
    push_str(&mut s, timestamp);
    push_str(&mut s, "_");
    push_str(&mut s, nonce);
    s
}

/// Where the raw payload of a request lies: the directory of the archived
/// file, or `raw://{request_id}` when only its digest was kept.
pub open spec fn raw_dir_spec(path: Option<Seq<char>>, request_id: Seq<char>) -> Seq<char> {
    match path {
        Some(p) => match crate::ops::path_parent_spec(p) {
            Some(d) => d,
            None => "raw://"@ + request_id,
        },
        None => "raw://"@ + request_id,
    }
}

/// Where the raw payload of a request lies (see `raw_dir_spec`).
pub fn raw_dir_for(record: &ArchiveRecord, request_id: &str) -> (r: String)
    ensures
        r@ == raw_dir_spec(opt_view(record.path), request_id@),
{
    let parent = match &record.path {
        Some(p) => crate::ops::path_parent(p.as_str()),
        None => None,
    };
    match parent {
        Some(d) => d,
        None => {
            let mut s = string_from("raw://");
            push_str(&mut s, request_id);
            s
        },
    }
}

/// Text made safe inside a CDATA section: each `]]>` is split across two
/// sections.
pub open spec fn sanitize_cdata_spec(v: Seq<char>) -> Seq<char> {
    crate::text::replace_spec(v, "]]>"@, "]]]]><![CDATA[>"@)
}

/// Text made safe inside a CDATA section.
pub fn sanitize_cdata(value: &str) -> (r: String)
    ensures
        r@ == sanitize_cdata_spec(value@),
{
    proof {
        reveal_strlit("]]>");
    }
    replace_all(value, "]]>", "]]]]><![CDATA[>")
}

/// A passive text reply to the sender, from the account, created at `create_time`.
pub open spec fn passive_reply_spec(to_user: Seq<char>, from_user: Seq<char>, content: Seq<char>, create_time: i64) -> Seq<char> {
    "<xml><ToUserName><![CDATA["@ + to_user + "]]></ToUserName><FromUserName><![CDATA["@
        + from_user + "]]></FromUserName><CreateTime>"@ + crate::text::signed_dec_spec(
        create_time as int,
    ) + "</CreateTime><MsgType><![CDATA[text]]></MsgType><Content><![CDATA["@
        + sanitize_cdata_spec(content) + "]]></Content></xml>"@
}

/// A passive text reply (see `passive_reply_spec`); `create_time` is the
/// current Unix time.
pub fn passive_text_reply(to_user: &OpenId, from_user: &str, content: &str, create_time: i64) -> (r: String)
    ensures
        r@ == passive_reply_spec(to_user@, from_user@, content@, create_time),
{
    let mut s = string_from("<xml><ToUserName><![CDATA[");
    push_str(&mut s, to_user.as_str());
    push_str(&mut s, "]]></ToUserName><FromUserName><![CDATA[");
    push_str(&mut s, from_user);
    push_str(&mut s, "]]></FromUserName><CreateTime>");
    let t = i64_to_dec(create_time);
    push_str(&mut s, t.as_str());
    push_str(&mut s, "</CreateTime><MsgType><![CDATA[text]]></MsgType><Content><![CDATA[");
    let c = sanitize_cdata(content);
    push_str(&mut s, c.as_str());
    push_str(&mut s, "]]></Content></xml>");
    s
}

/// A text message whose trimmed content is the configured join command
/// (itself trimmed, and not empty).
pub open spec fn join_command_spec(m: IncomingMessage, command: Option<Seq<char>>) -> bool {
    match command {
        None => false,
        Some(c) => {
            let cmd = crate::text::trim_spec(c);
            cmd.len() > 0 && (m matches IncomingMessage::Text(t) && crate::text::trim_spec(
                t.content@,
            ) == cmd)
        },
    }
}

/// Whether a message asks to join the whitelist.
pub fn is_whitelist_join_command(message: &IncomingMessage, command: Option<&str>) -> (r: bool)
    ensures
        r == join_command_spec(
            *message,
            match command {
                Some(c) => Some(c@),
                None => None,
            },
        ),
{
    let cmd = match command {
        Some(c) => trim(c),
        None => return false,
    };
    if cmd.as_str().is_empty() {
        return false;
    }
    match message {
        IncomingMessage::Text(t) => {
            let content = trim(t.content.as_str());
            str_eq(content.as_str(), cmd.as_str())
        },
        _ => false,
    }
}

/// What happens to a received message.
#[derive(Debug, Clone, PartialEq, Eq)]
pub struct ReceiveDecision {
    /// `whitelisted`, `queued` or `ignored`.
    pub status: String,
    /// Whether the message is stored as coming from an allowed sender.
    pub authorized: bool,
    /// Whether a processing job is queued.
    pub create_job: bool,
    /// Whether the sender is added to the whitelist.
    pub add_to_whitelist: bool,
    /// Whether the honeypot reply is sent.
    pub honeypot_reply: bool,
}

/// The decision on a message: a join command whitelists its sender and does
/// nothing else; a supported message from a whitelisted sender is queued;
/// anything else is ignored, and answered with the honeypot reply when the
/// sender is not whitelisted and the reply is enabled.
pub open spec fn decision_matches(m: IncomingMessage, whitelisted: bool, config: ReceiverConfig, d: ReceiveDecision) -> bool {
    let join = join_command_spec(m, opt_view(config.whitelist_join_command));
    let supported = !(m is Unsupported);
    &&& d.status@ == if join {
        "whitelisted"@
    } else if whitelisted && supported {
        "queued"@
    } else {
        "ignored"@
    }
    &&& d.authorized == (whitelisted || join)
    &&& d.add_to_whitelist == join
    &&& d.create_job == (!join && whitelisted && supported)
    &&& d.honeypot_reply == (!join && !whitelisted && config.honeypot_reply_enabled)
}

/// The guarantees of a decision: a job is queued only for a supported
/// message from a whitelisted sender, and then the message counts as
/// authorized; the honeypot reply goes only to a sender that is not
/// whitelisted, and only when it is enabled; only a join command adds its
/// sender to the whitelist, and it then neither queues a job nor gets the
/// honeypot reply; a whitelisted sender's supported message that is no
/// join command is always queued.
pub proof fn lemma_decision_guarantees(m: IncomingMessage, whitelisted: bool, config: ReceiverConfig, d: ReceiveDecision)
    requires
        decision_matches(m, whitelisted, config, d),
    ensures
        d.create_job ==> whitelisted && !(m is Unsupported) && d.authorized && d.status@ == "queued"@,
        d.honeypot_reply ==> !whitelisted && config.honeypot_reply_enabled && !d.authorized,
        d.add_to_whitelist ==> !d.create_job && !d.honeypot_reply && d.authorized,
        d.add_to_whitelist == join_command_spec(m, opt_view(config.whitelist_join_command)),
        whitelisted && !(m is Unsupported) && !d.add_to_whitelist ==> d.create_job,
        !whitelisted && !d.add_to_whitelist ==> !d.authorized && !d.create_job && d.status@ == "ignored"@,
{
}

/// Decides what happens to a message (see `decision_matches`);
/// `sender_whitelisted` is what the store says of its sender.
pub fn decide(message: &IncomingMessage, sender_whitelisted: bool, config: &ReceiverConfig) -> (r: ReceiveDecision)
    ensures
        decision_matches(*message, sender_whitelisted, *config, r),
{
    let command = match &config.whitelist_join_command {
        Some(c) => Some(c.as_str()),
        None => None,
    };
    let join = is_whitelist_join_command(message, command);
    let supported = message.is_supported();
    let status = if join {
        string_from("whitelisted")
    } else if sender_whitelisted && supported {
        string_from("queued")
    } else {
        string_from("ignored")
    };
    ReceiveDecision {
        status,
        authorized: sender_whitelisted || join,
        create_job: !join && sender_whitelisted && supported,
        add_to_whitelist: join,
        honeypot_reply: !join && !sender_whitelisted && config.honeypot_reply_enabled,
    }
}

fn copy_opt(v: &Option<String>) -> (r: Option<String>)
    ensures
        opt_view(r) == opt_view(*v),
{
    match v {
        Some(s) => Some(string_from(s.as_str())),
        None => None,
    }
}

/// The media id of an image, voice or video.
pub fn media_id(message: &IncomingMessage) -> (r: Option<String>)
    ensures
        opt_view(r) == media_id_of(*message),
{
    match message {
        IncomingMessage::Image(x) => Some(string_from(x.media_id.as_str())),
        IncomingMessage::Voice(x) => Some(string_from(x.media_id.as_str())),
        IncomingMessage::Video(x) => Some(string_from(x.media_id.as_str())),
        IncomingMessage::ShortVideo(x) => Some(string_from(x.media_id.as_str())),
        _ => None,
    }
}

/// The thumbnail media id of a video.
pub fn thumb_media_id(message: &IncomingMessage) -> (r: Option<String>)
    ensures
        opt_view(r) == thumb_media_id_of(*message),
{
    match message {
        IncomingMessage::Video(x) | IncomingMessage::ShortVideo(x) => match &x.thumb_media_id {
            Some(t) => Some(string_from(t.as_str())),
            None => None,
        },
        _ => None,
    }
}

/// The picture URL of an image.
pub fn pic_url(message: &IncomingMessage) -> (r: Option<String>)
    ensures
        opt_view(r) == pic_url_of(*message),
{
    match message {
        IncomingMessage::Image(x) => copy_opt(&x.pic_url),
        _ => None,
    }
}

/// The format of a voice.
pub fn voice_format(message: &IncomingMessage) -> (r: Option<String>)
    ensures
        opt_view(r) == voice_format_of(*message),
{
    match message {
        IncomingMessage::Voice(x) => copy_opt(&x.format),
        _ => None,
    }
}

/// WeChat's recognition of a voice.
pub fn voice_recognition(message: &IncomingMessage) -> (r: Option<String>)
    ensures
        opt_view(r) == voice_recognition_of(*message),
{
    match message {
        IncomingMessage::Voice(x) => copy_opt(&x.recognition),
        _ => None,
    }
}

/// The latitude of a location.
pub fn location_lat(message: &IncomingMessage) -> (r: Option<String>)
    ensures
        opt_view(r) == location_lat_of(*message),
{
    match message {
        IncomingMessage::Location(x) => Some(string_from(x.latitude.as_str())),
        _ => None,
    }
}

/// The longitude of a location.
pub fn location_lng(message: &IncomingMessage) -> (r: Option<String>)
    ensures
        opt_view(r) == location_lng_of(*message),
{
    match message {
        IncomingMessage::Location(x) => Some(string_from(x.longitude.as_str())),
        _ => None,
    }
}

/// The map scale of a location.
pub fn location_scale(message: &IncomingMessage) -> (r: Option<i32>)
    ensures
        r == match *message {
            IncomingMessage::Location(x) => x.scale,
            _ => None,
        },
{
    match message {
        IncomingMessage::Location(x) => x.scale,
        _ => None,
    }
}

/// The label of a location.
pub fn location_label(message: &IncomingMessage) -> (r: Option<String>)
    ensures
        opt_view(r) == location_label_of(*message),
{
    match message {
        IncomingMessage::Location(x) => copy_opt(&x.label),
        _ => None,
    }
}

/// The title of a link.
pub fn link_title(message: &IncomingMessage) -> (r: Option<String>)
    ensures
        opt_view(r) == link_title_of(*message),
{
    match message {
        IncomingMessage::Link(x) => copy_opt(&x.title),
        _ => None,
    }
}

/// The description of a link.
pub fn link_description(message: &IncomingMessage) -> (r: Option<String>)
    ensures
        opt_view(r) == link_description_of(*message),
{
    match message {
        IncomingMessage::Link(x) => copy_opt(&x.description),
        _ => None,
    }
}

/// The URL of a link.
pub fn link_url(message: &IncomingMessage) -> (r: Option<String>)
    ensures
        opt_view(r) == link_url_of(*message),
{
    match message {
        IncomingMessage::Link(x) => Some(string_from(x.url.as_str())),
        _ => None,
    }
}

/// The media id of an image, voice or video.
pub open spec fn media_id_of(m: IncomingMessage) -> Option<Seq<char>> {
    match m {
        IncomingMessage::Image(x) => Some(x.media_id@),
        IncomingMessage::Voice(x) => Some(x.media_id@),
        IncomingMessage::Video(x) => Some(x.media_id@),
        IncomingMessage::ShortVideo(x) => Some(x.media_id@),
        _ => None,
    }
}

/// The thumbnail media id of a video.
pub open spec fn thumb_media_id_of(m: IncomingMessage) -> Option<Seq<char>> {
    match m {
        IncomingMessage::Video(x) => crate::wechat::message::opt_media_view(x.thumb_media_id),
        IncomingMessage::ShortVideo(x) => crate::wechat::message::opt_media_view(
            x.thumb_media_id,
        ),
        _ => None,
    }
}

/// The picture URL of an image.
pub open spec fn pic_url_of(m: IncomingMessage) -> Option<Seq<char>> {
    match m {
        IncomingMessage::Image(x) => opt_view(x.pic_url),
        _ => None,
    }
}

/// The format of a voice.
pub open spec fn voice_format_of(m: IncomingMessage) -> Option<Seq<char>> {
    match m {
        IncomingMessage::Voice(x) => opt_view(x.format),
        _ => None,
    }
}

/// WeChat's recognition of a voice.
pub open spec fn voice_recognition_of(m: IncomingMessage) -> Option<Seq<char>> {
    match m {
        IncomingMessage::Voice(x) => opt_view(x.recognition),
        _ => None,
    }
}

/// The latitude of a location.
pub open spec fn location_lat_of(m: IncomingMessage) -> Option<Seq<char>> {
    match m {
        IncomingMessage::Location(x) => Some(x.latitude@),
        _ => None,
    }
}

/// The longitude of a location.
pub open spec fn location_lng_of(m: IncomingMessage) -> Option<Seq<char>> {
    match m {
        IncomingMessage::Location(x) => Some(x.longitude@),
        _ => None,
    }
}

/// The label of a location.
pub open spec fn location_label_of(m: IncomingMessage) -> Option<Seq<char>> {
    match m {
        IncomingMessage::Location(x) => opt_view(x.label),
        _ => None,
    }
}

/// The title of a link.
pub open spec fn link_title_of(m: IncomingMessage) -> Option<Seq<char>> {
    match m {
        IncomingMessage::Link(x) => opt_view(x.title),
        _ => None,
    }
}

/// The description of a link.
pub open spec fn link_description_of(m: IncomingMessage) -> Option<Seq<char>> {
    match m {
        IncomingMessage::Link(x) => opt_view(x.description),
        _ => None,
    }
}

/// The URL of a link.
pub open spec fn link_url_of(m: IncomingMessage) -> Option<Seq<char>> {
    match m {
        IncomingMessage::Link(x) => Some(x.url@),
        _ => None,
    }
}

/// The record stored for a received message.
pub open spec fn insert_matches(
    i: MessageInsert,
    request_id: Seq<char>,
    raw_dir: Seq<char>,
    m: IncomingMessage,
    openid_hash: Seq<char>,
    received_at: Seq<char>,
    d: ReceiveDecision,
) -> bool {
    let c = crate::wechat::message::common_spec(m);
    &&& i.request_id@ == request_id
    &&& opt_view(i.wechat_msg_id) == crate::wechat::message::opt_msg_id_view(c.msg_id)
    &&& i.to_user_name@ == c.to_user_name@
    &&& i.from_openid@ == c.from_user_name@
    &&& i.from_openid_hash@ == openid_hash
    &&& i.create_time == Some(c.create_time)
    &&& i.received_at@ == received_at
    &&& i.message_type@ == crate::wechat::message::msg_type_spec(m)
    &&& opt_view(i.content_text) == match m {
        IncomingMessage::Text(x) => Some(x.content@),
        _ => None,
    }
    &&& opt_view(i.media_id) == media_id_of(m)
    &&& opt_view(i.thumb_media_id) == thumb_media_id_of(m)
    &&& opt_view(i.pic_url) == pic_url_of(m)
    &&& opt_view(i.voice_format) == voice_format_of(m)
    &&& opt_view(i.voice_recognition) == voice_recognition_of(m)
    &&& opt_view(i.location_lat) == location_lat_of(m)
    &&& opt_view(i.location_lng) == location_lng_of(m)
    &&& i.location_scale == match m {
        IncomingMessage::Location(x) => x.scale,
        _ => None,
    }
    &&& opt_view(i.location_label) == location_label_of(m)
    &&& opt_view(i.link_title) == link_title_of(m)
    &&& opt_view(i.link_description) == link_description_of(m)
    &&& opt_view(i.link_url) == link_url_of(m)
    &&& i.authorized == d.authorized
    &&& i.status@ == d.status@
    &&& i.raw_dir@ == raw_dir
}

/// The record stored for a received message, with its fields by type (see
/// the field functions) and the decision's status.
pub fn message_insert(
    request_id: &str,
    raw_dir: &str,
    message: &IncomingMessage,
    openid_hash: &str,
    received_at: &str,
    decision: &ReceiveDecision,
) -> (r: MessageInsert)
    ensures
        insert_matches(r, request_id@, raw_dir@, *message, openid_hash@, received_at@, *decision),
{
    let common = message.common();
    MessageInsert {
        request_id: string_from(request_id),
        wechat_msg_id: match &common.msg_id {
            Some(id) => Some(string_from(id.as_str())),
            None => None,
        },
        to_user_name: string_from(common.to_user_name.as_str()),
        from_openid: string_from(common.from_user_name.as_str()),
        from_openid_hash: string_from(openid_hash),
        create_time: Some(common.create_time),
        received_at: string_from(received_at),
        message_type: string_from(message.msg_type()),
        content_text: match message.content_text() {
            Some(t) => Some(string_from(t)),
            None => None,
        },
        media_id: media_id(message),
        thumb_media_id: thumb_media_id(message),
        pic_url: pic_url(message),
        voice_format: voice_format(message),
        voice_recognition: voice_recognition(message),
        location_lat: location_lat(message),
        location_lng: location_lng(message),
        location_scale: location_scale(message),
        location_label: location_label(message),
        link_title: link_title(message),
        link_description: link_description(message),
        link_url: link_url(message),
        authorized: decision.authorized,
        status: string_from(decision.status.as_str()),
        raw_dir: string_from(raw_dir),
    }
}

/// The HTTP answer to a callback, as a status code and a body.
#[derive(Debug, Clone, PartialEq, Eq)]
pub struct CallbackResponse {
    pub status: u16,
    pub body: String,
}

/// How the outcome of handling a callback is answered: the reply XML or an
/// empty body with 200, 403 for a bad signature, 400 for any other error.
pub open spec fn callback_response_spec(outcome: Result<Option<Seq<char>>, ErrorKind>) -> (u16, Seq<char>) {
    match outcome {
        Ok(Some(xml)) => (200, xml),
        Ok(None) => (200, Seq::empty()),
        Err(ErrorKind::WechatSignatureInvalid) => (403, Seq::empty()),
        Err(_) => (400, Seq::empty()),
    }
}

/// The outcome of handling a callback, as mathematical values.
pub open spec fn outcome_view(outcome: Result<Option<String>, BridgeError>) -> Result<Option<Seq<char>>, ErrorKind> {
    match outcome {
        Ok(Some(xml)) => Ok(Some(xml@)),
        Ok(None) => Ok(None),
        Err(e) => Err(e@.0),
    }
}

/// The HTTP answer to a callback (see `callback_response_spec`).
pub fn callback_response(outcome: Result<Option<String>, BridgeError>) -> (r: CallbackResponse)
    ensures
        (r.status, r.body@) == callback_response_spec(outcome_view(outcome)),
{
    match outcome {
        Ok(Some(xml)) => CallbackResponse { status: 200, body: xml },
        Ok(None) => CallbackResponse { status: 200, body: String::new() },
        Err(BridgeError::WechatSignatureInvalid) => CallbackResponse { status: 403, body: String::new() },
        Err(_) => CallbackResponse { status: 400, body: String::new() },
    }
}

} // verus!
