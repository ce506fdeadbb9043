//! Plain (decrypted) WeChat messages.
//!
//! The XML itself is read into a [`RawWechatMessage`] by the XML reader of the
//! application; the rules that turn those fields into a typed message live here.
use vstd::prelude::*;

use crate::error::{BridgeError, ErrorKind, ErrorView};
use crate::text::{push_str, str_eq, string_from};
use crate::wechat::types::{MediaId, OpenId, UrlString, WechatMsgId};

verus! {

/// The fields of a message as they appear in WeChat's XML. Coordinates are
/// kept as the decimal text of the number.
#[derive(Debug, Clone, PartialEq, Eq)]
pub struct RawWechatMessage {
    pub to_user_name: String,
    pub from_user_name: String,
    pub create_time: i64,
    pub msg_type: String,
    pub msg_id: Option<String>,
    pub content: Option<String>,
    pub pic_url: Option<String>,
    pub media_id: Option<String>,
    pub format: Option<String>,
    pub recognition: Option<String>,
    pub thumb_media_id: Option<String>,
    pub location_x: Option<String>,
    pub location_y: Option<String>,
    pub scale: Option<i32>,
    pub label: Option<String>,
    pub title: Option<String>,
    pub description: Option<String>,
    pub url: Option<String>,
}

#[derive(Debug, Clone, PartialEq, Eq)]
pub enum IncomingMessage {
    Text(TextMessage),
    Image(ImageMessage),
    Voice(VoiceMessage),
    Video(VideoMessage),
    ShortVideo(VideoMessage),
    Location(LocationMessage),
    Link(LinkMessage),
    Unsupported(UnsupportedMessage),
}

#[derive(Debug, Clone, PartialEq, Eq)]
pub struct CommonFields {
    pub to_user_name: String,
    pub from_user_name: OpenId,
    pub create_time: i64,
    pub msg_id: Option<WechatMsgId>,
}

#[derive(Debug, Clone, PartialEq, Eq)]
pub struct TextMessage {
    pub common: CommonFields,
    pub content: String,
}

#[derive(Debug, Clone, PartialEq, Eq)]
pub struct ImageMessage {
    pub common: CommonFields,
    pub pic_url: Option<String>,
    pub media_id: MediaId,
}

#[derive(Debug, Clone, PartialEq, Eq)]
pub struct VoiceMessage {
    pub common: CommonFields,
    pub media_id: MediaId,
    pub format: Option<String>,
    pub recognition: Option<String>,
}

#[derive(Debug, Clone, PartialEq, Eq)]
pub struct VideoMessage {
    pub common: CommonFields,
    pub media_id: MediaId,
    pub thumb_media_id: Option<MediaId>,
}

/// A location; `latitude` and `longitude` hold the decimal text of the coordinates.
#[derive(Debug, Clone, PartialEq, Eq)]
pub struct LocationMessage {
    pub common: CommonFields,
    pub latitude: String,
    pub longitude: String,
    pub scale: Option<i32>,
    pub label: Option<String>,
}

#[derive(Debug, Clone, PartialEq, Eq)]
pub struct LinkMessage {
    pub common: CommonFields,
    pub title: Option<String>,
    pub description: Option<String>,
    pub url: UrlString,
}

#[derive(Debug, Clone, PartialEq, Eq)]
pub struct UnsupportedMessage {
    pub common: CommonFields,
    pub msg_type: String,
}

/// The view of an optional string.
pub open spec fn opt_view(o: Option<String>) -> Option<Seq<char>> {
    match o {
        Some(s) => Some(s@),
        None => None,
    }
}

/// The view of an optional message id.
pub open spec fn opt_msg_id_view(o: Option<WechatMsgId>) -> Option<Seq<char>> {
    match o {
        Some(s) => Some(s@),
        None => None,
    }
}

/// The view of an optional media id.
pub open spec fn opt_media_view(o: Option<MediaId>) -> Option<Seq<char>> {
    match o {
        Some(s) => Some(s@),
        None => None,
    }
}

/// The message types that need a media id.
pub open spec fn is_media_type(t: Seq<char>) -> bool {
    t == "image"@ || t == "voice"@ || t == "video"@ || t == "shortvideo"@
}

/// The required field that a raw message lacks, if any.
pub open spec fn missing_required(raw: RawWechatMessage) -> Option<Seq<char>> {
    let t = raw.msg_type@;
    if t == "text"@ && raw.content is None {
        Some("Content"@)
    } else if is_media_type(t) && raw.media_id is None {
        Some("MediaId"@)
    } else if t == "location"@ && raw.location_x is None {
        Some("Location_X"@)
    } else if t == "location"@ && raw.location_y is None {
        Some("Location_Y"@)
    } else if t == "link"@ && raw.url is None {
        Some("Url"@)
    } else {
        None
    }
}

/// The common fields hold what the raw message says.
pub open spec fn common_from_raw(raw: RawWechatMessage, c: CommonFields) -> bool {
    &&& c.to_user_name@ == raw.to_user_name@
    &&& c.from_user_name@ == raw.from_user_name@
    &&& c.create_time == raw.create_time
    &&& opt_msg_id_view(c.msg_id) == opt_view(raw.msg_id)
}

/// `m` is the typed message that the raw fields describe.
pub open spec fn message_from_raw(raw: RawWechatMessage, m: IncomingMessage) -> bool {
    let t = raw.msg_type@;
    match m {
        IncomingMessage::Text(x) => t == "text"@ && common_from_raw(raw, x.common) && Some(
            x.content@,
        ) == opt_view(raw.content),
        IncomingMessage::Image(x) => t == "image"@ && common_from_raw(raw, x.common) && opt_view(
            x.pic_url,
        ) == opt_view(raw.pic_url) && Some(x.media_id@) == opt_view(raw.media_id),
        IncomingMessage::Voice(x) => t == "voice"@ && common_from_raw(raw, x.common) && Some(
            x.media_id@,
        ) == opt_view(raw.media_id) && opt_view(x.format) == opt_view(raw.format) && opt_view(
            x.recognition,
        ) == opt_view(raw.recognition),
        IncomingMessage::Video(x) => t == "video"@ && common_from_raw(raw, x.common) && Some(
            x.media_id@,
        ) == opt_view(raw.media_id) && opt_media_view(x.thumb_media_id) == opt_view(
            raw.thumb_media_id,
        ),
        IncomingMessage::ShortVideo(x) => t == "shortvideo"@ && common_from_raw(raw, x.common)
            && Some(x.media_id@) == opt_view(raw.media_id) && opt_media_view(x.thumb_media_id)
            == opt_view(raw.thumb_media_id),
        IncomingMessage::Location(x) => t == "location"@ && common_from_raw(raw, x.common) && Some(
            x.latitude@,
        ) == opt_view(raw.location_x) && Some(x.longitude@) == opt_view(raw.location_y)
            && x.scale == raw.scale && opt_view(x.label) == opt_view(raw.label),
        IncomingMessage::Link(x) => t == "link"@ && common_from_raw(raw, x.common) && opt_view(
            x.title,
        ) == opt_view(raw.title) && opt_view(x.description) == opt_view(raw.description) && Some(
            x.url@,
        ) == opt_view(raw.url),
        IncomingMessage::Unsupported(x) => t != "text"@ && !is_media_type(t) && t != "location"@
            && t != "link"@ && common_from_raw(raw, x.common) && x.msg_type@ == t,
    }
}

/// The message type of a typed message, as WeChat names it.
pub open spec fn msg_type_spec(m: IncomingMessage) -> Seq<char> {
    match m {
        IncomingMessage::Text(_) => "text"@,
        IncomingMessage::Image(_) => "image"@,
        IncomingMessage::Voice(_) => "voice"@,
        IncomingMessage::Video(_) => "video"@,
        IncomingMessage::ShortVideo(_) => "shortvideo"@,
        IncomingMessage::Location(_) => "location"@,
        IncomingMessage::Link(_) => "link"@,
        IncomingMessage::Unsupported(x) => x.msg_type@,
    }
}

/// The common fields of a typed message.
pub open spec fn common_spec(m: IncomingMessage) -> CommonFields {
    match m {
        IncomingMessage::Text(x) => x.common,
        IncomingMessage::Image(x) => x.common,
        IncomingMessage::Voice(x) => x.common,
        IncomingMessage::Video(x) => x.common,
        IncomingMessage::ShortVideo(x) => x.common,
        IncomingMessage::Location(x) => x.common,
        IncomingMessage::Link(x) => x.common,
        IncomingMessage::Unsupported(x) => x.common,
    }
}

/// The message type names are pairwise different.
pub proof fn lemma_type_names_distinct()
    ensures
        "text"@ != "image"@,
        "text"@ != "voice"@,
        "text"@ != "video"@,
        "text"@ != "shortvideo"@,
        "text"@ != "location"@,
        "text"@ != "link"@,
        "image"@ != "voice"@,
        "image"@ != "video"@,
        "image"@ != "shortvideo"@,
        "image"@ != "location"@,
        "image"@ != "link"@,
        "voice"@ != "video"@,
        "voice"@ != "shortvideo"@,
        "voice"@ != "location"@,
        "voice"@ != "link"@,
        "video"@ != "shortvideo"@,
        "video"@ != "location"@,
        "video"@ != "link"@,
        "shortvideo"@ != "location"@,
        "shortvideo"@ != "link"@,
        "location"@ != "link"@,
{
    reveal_strlit("text");
    reveal_strlit("image");
    reveal_strlit("voice");
    reveal_strlit("video");
    reveal_strlit("shortvideo");
    reveal_strlit("location");
    reveal_strlit("link");
    assert("text"@.len() == 4);
    assert("image"@.len() == 5);
    assert("voice"@.len() == 5);
    assert("video"@.len() == 5);
    assert("shortvideo"@.len() == 10);
    assert("location"@.len() == 8);
    assert("link"@.len() == 4);
    assert("text"@[0] != "link"@[0]);
    assert("image"@[1] != "voice"@[1]);
    assert("image"@[1] != "video"@[1]);
    assert("voice"@[1] != "video"@[1]);
}

fn clone_opt(o: &Option<String>) -> (r: Option<String>)
    ensures
        opt_view(r) == opt_view(*o),
{
    match o {
        Some(s) => Some(string_from(s.as_str())),
        None => None,
    }
}

fn missing_field(field: &str) -> (e: BridgeError)
    ensures
        e@ == (ErrorKind::WechatXmlInvalid, "missing required field "@ + field@),
{
    let mut m = string_from("missing required field ");
    push_str(&mut m, field);
    BridgeError::WechatXmlInvalid(m)
}

fn common_of(raw: &RawWechatMessage) -> (c: CommonFields)
    ensures
        common_from_raw(*raw, c),
{
    CommonFields {
        to_user_name: string_from(raw.to_user_name.as_str()),
        from_user_name: OpenId::new(raw.from_user_name.as_str()),
        create_time: raw.create_time,
        msg_id: match &raw.msg_id {
            Some(id) => Some(WechatMsgId::new(id.as_str())),
            None => None,
        },
    }
}

impl IncomingMessage {
    /// The typed message that the raw fields describe; an error names the
    /// first required field that is missing.
    pub fn try_from_raw(raw: &RawWechatMessage) -> (r: Result<IncomingMessage, BridgeError>)
        ensures
            match r {
                Ok(m) => missing_required(*raw) is None && message_from_raw(*raw, m),
                Err(e) => missing_required(*raw) is Some && e@ == (
                    ErrorKind::WechatXmlInvalid,
                    "missing required field "@ + missing_required(*raw)->Some_0,
                ),
            },
    {
        proof {
            lemma_type_names_distinct();
        }
        let common = common_of(raw);
        let t = raw.msg_type.as_str();
        if str_eq(t, "text") {
            match &raw.content {
                Some(content) => Ok(
                    IncomingMessage::Text(
                        TextMessage { common, content: string_from(content.as_str()) },
                    ),
                ),
                None => Err(missing_field("Content")),
            }
        } else if str_eq(t, "image") || str_eq(t, "voice") || str_eq(t, "video") || str_eq(
            t,
            "shortvideo",
        ) {
            let media_id = match &raw.media_id {
                Some(id) => MediaId::new(id.as_str()),
                None => return Err(missing_field("MediaId")),
            };

            if str_eq(t, "image") {
                Ok(
                    IncomingMessage::Image(
                        ImageMessage { common, pic_url: clone_opt(&raw.pic_url), media_id },
                    ),
                )
            } else if str_eq(t, "voice") {
                Ok(
                    IncomingMessage::Voice(
                        VoiceMessage {
                            common,
                            media_id,
                            format: clone_opt(&raw.format),
                            recognition: clone_opt(&raw.recognition),
                        },
                    ),
                )
            } else {
                let thumb_media_id = match &raw.thumb_media_id {
                    Some(id) => Some(MediaId::new(id.as_str())),
                    None => None,
                };
                let video = VideoMessage { common, media_id, thumb_media_id };
                if str_eq(t, "video") {
                    Ok(IncomingMessage::Video(video))
                } else {
                    Ok(IncomingMessage::ShortVideo(video))
                }
            }
        } else if str_eq(t, "location") {
            let latitude = match &raw.location_x {
                Some(x) => string_from(x.as_str()),
                None => return Err(missing_field("Location_X")),
            };
            let longitude = match &raw.location_y {
                Some(y) => string_from(y.as_str()),
                None => return Err(missing_field("Location_Y")),
            };
            Ok(
                IncomingMessage::Location(
                    LocationMessage {
                        common,
                        latitude,
                        longitude,
                        scale: raw.scale,
                        label: clone_opt(&raw.label),
                    },
                ),
            )
        } else if str_eq(t, "link") {
            match &raw.url {
                Some(url) => Ok(
                    IncomingMessage::Link(
                        LinkMessage {
                            common,
                            title: clone_opt(&raw.title),
                            description: clone_opt(&raw.description),
                            url: UrlString::new(url.as_str()),
                        },
                    ),
                ),
                None => Err(missing_field("Url")),
            }
        } else {
            Ok(
                IncomingMessage::Unsupported(
                    UnsupportedMessage { common, msg_type: string_from(t) },
                ),
            )
        }
    }

    /// The common fields of the message.
    pub fn common(&self) -> (c: &CommonFields)
        ensures
            *c == common_spec(*self),
    {
        match self {
            IncomingMessage::Text(x) => &x.common,
            IncomingMessage::Image(x) => &x.common,
            IncomingMessage::Voice(x) => &x.common,
            IncomingMessage::Video(x) => &x.common,
            IncomingMessage::ShortVideo(x) => &x.common,
            IncomingMessage::Location(x) => &x.common,
            IncomingMessage::Link(x) => &x.common,
            IncomingMessage::Unsupported(x) => &x.common,
        }
    }

    /// The message type as WeChat names it.
    pub fn msg_type(&self) -> (t: &str)
        ensures
            t@ == msg_type_spec(*self),
    {
        match self {
            IncomingMessage::Text(_) => "text",
            IncomingMessage::Image(_) => "image",
            IncomingMessage::Voice(_) => "voice",
            IncomingMessage::Video(_) => "video",
            IncomingMessage::ShortVideo(_) => "shortvideo",
            IncomingMessage::Location(_) => "location",
            IncomingMessage::Link(_) => "link",
            IncomingMessage::Unsupported(x) => x.msg_type.as_str(),
        }
    }

    /// The text of a text message.
    pub fn content_text(&self) -> (t: Option<&str>)
        ensures
            match *self {
                IncomingMessage::Text(x) => t matches Some(s) && s@ == x.content@,
                _ => t is None,
            },
    {
        match self {
            IncomingMessage::Text(x) => Some(x.content.as_str()),
            _ => None,
        }
    }

    /// Whether the bridge processes messages of this type.
    pub fn is_supported(&self) -> (b: bool)
        ensures
            b == !(*self is Unsupported),
    {
        match self {
            IncomingMessage::Unsupported(_) => false,
            _ => true,
        }
    }
}

} // verus!
