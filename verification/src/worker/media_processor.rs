//! Media messages: what is downloaded, how it is described to the model,
//! and the artifact made of the model's answer.
//!
//! Downloading the media and asking the model are left to the caller.
use vstd::prelude::*;

use crate::error::{BridgeError, ErrorKind, ErrorView};
use crate::llm::{LlmOutput, MediaKind};
use crate::preprocess::artifact::{ProcessedArtifact, ProcessedArtifactKind};
use crate::preprocess::media::{process_model_output, ModelPreprocessOutput};
use crate::source::join_path;
use crate::store::StoredMessage;
use crate::text::{push_str, str_eq, string_from};
use crate::worker::message_key;

verus! {

/// The prompts that introduce each kind of media to the model.
#[derive(Debug, Clone, PartialEq, Eq)]
pub struct MediaPrompts {
    pub image_prompt: String,
    pub voice_prompt: String,
    pub video_prompt: String,
}

impl MediaPrompts {
    /// The built-in prompts.
    pub fn new() -> (r: MediaPrompts)
        ensures
            r.image_prompt@ == "Describe this image for a personal knowledge base."@,
            r.voice_prompt@ == "Transcribe and summarize this voice message."@,
            r.video_prompt@ == "Summarize this video for a personal knowledge base."@,
    {
        MediaPrompts {
            image_prompt: string_from("Describe this image for a personal knowledge base."),
            voice_prompt: string_from("Transcribe and summarize this voice message."),
            video_prompt: string_from("Summarize this video for a personal knowledge base."),
        }
    }

    /// These prompts replaced by the given ones.
    pub fn with_prompts(self, image_prompt: &str, voice_prompt: &str, video_prompt: &str) -> (r: MediaPrompts)
        ensures
            r.image_prompt@ == image_prompt@,
            r.voice_prompt@ == voice_prompt@,
            r.video_prompt@ == video_prompt@,
    {
        MediaPrompts {
            image_prompt: string_from(image_prompt),
            voice_prompt: string_from(voice_prompt),
            video_prompt: string_from(video_prompt),
        }
    }
}

/// The media kind of a message type.
pub open spec fn media_kind_spec(t: Seq<char>) -> Result<MediaKind, ErrorView> {
    if t == "image"@ {
        Ok(MediaKind::Image)
    } else if t == "voice"@ {
        Ok(MediaKind::Voice)
    } else if t == "video"@ {
        Ok(MediaKind::Video)
    } else if t == "shortvideo"@ {
        Ok(MediaKind::ShortVideo)
    } else {
        Err((ErrorKind::MessageUnsupported, t))
    }
}

/// The artifact kind of a media message type.
pub open spec fn artifact_kind_spec(t: Seq<char>) -> Result<ProcessedArtifactKind, ErrorView> {
    if t == "image"@ {
        Ok(ProcessedArtifactKind::Image)
    } else if t == "voice"@ {
        Ok(ProcessedArtifactKind::Voice)
    } else if t == "video"@ {
        Ok(ProcessedArtifactKind::Video)
    } else if t == "shortvideo"@ {
        Ok(ProcessedArtifactKind::ShortVideo)
    } else {
        Err((ErrorKind::MessageUnsupported, t))
    }
}

/// The MIME type of a media message: JPEG images, MP4 videos, voices by
/// their format (MP3, WAV, else AMR), anything else as plain bytes.
pub open spec fn mime_spec(t: Seq<char>, voice_format: Option<Seq<char>>) -> Seq<char> {
    if t == "image"@ {
        "image/jpeg"@
    } else if t == "voice"@ {
        if voice_format == Some("mp3"@) {
            "audio/mpeg"@
        } else if voice_format == Some("wav"@) {
            "audio/wav"@
        } else {
            "audio/amr"@
        }
    } else if t == "video"@ || t == "shortvideo"@ {
        "video/mp4"@
    } else {
        "application/octet-stream"@
    }
}

/// The file extension of a MIME type.
pub open spec fn extension_spec(mime: Seq<char>) -> Seq<char> {
    if mime == "image/jpeg"@ {
        ".jpg"@
    } else if mime == "audio/mpeg"@ {
        ".mp3"@
    } else if mime == "audio/wav"@ {
        ".wav"@
    } else if mime == "audio/amr"@ {
        ".amr"@
    } else if mime == "video/mp4"@ {
        ".mp4"@
    } else {
        ".bin"@
    }
}

/// The prompt of a message type.
pub open spec fn prompt_spec(t: Seq<char>, p: MediaPrompts) -> Seq<char> {
    if t == "image"@ {
        p.image_prompt@
    } else if t == "voice"@ {
        p.voice_prompt@
    } else if t == "video"@ || t == "shortvideo"@ {
        p.video_prompt@
    } else {
        Seq::empty()
    }
}

/// The media kind of a message type.
pub fn media_kind(message_type: &str) -> (r: Result<MediaKind, BridgeError>)
    ensures
        match r {
            Ok(k) => media_kind_spec(message_type@) == Ok::<MediaKind, ErrorView>(k),
            Err(e) => media_kind_spec(message_type@) == Err::<MediaKind, ErrorView>(e@),
        },
{
    if str_eq(message_type, "image") {
        Ok(MediaKind::Image)
    } else if str_eq(message_type, "voice") {
        Ok(MediaKind::Voice)
    } else if str_eq(message_type, "video") {
        Ok(MediaKind::Video)
    } else if str_eq(message_type, "shortvideo") {
        Ok(MediaKind::ShortVideo)
    } else {
        Err(BridgeError::MessageUnsupported(string_from(message_type)))
    }
}

/// The artifact kind of a media message type.
pub fn artifact_kind(message_type: &str) -> (r: Result<ProcessedArtifactKind, BridgeError>)
    ensures
        match r {
            Ok(k) => artifact_kind_spec(message_type@) == Ok::<ProcessedArtifactKind, ErrorView>(k),
            Err(e) => artifact_kind_spec(message_type@) == Err::<ProcessedArtifactKind, ErrorView>(e@),
        },
{
    if str_eq(message_type, "image") {
        Ok(ProcessedArtifactKind::Image)
    } else if str_eq(message_type, "voice") {
        Ok(ProcessedArtifactKind::Voice)
    } else if str_eq(message_type, "video") {
        Ok(ProcessedArtifactKind::Video)
    } else if str_eq(message_type, "shortvideo") {
        Ok(ProcessedArtifactKind::ShortVideo)
    } else {
        Err(BridgeError::MessageUnsupported(string_from(message_type)))
    }
}

/// The MIME type of a media message (see `mime_spec`).
pub fn mime_type(message_type: &str, voice_format: Option<&str>) -> (r: &'static str)
    ensures
        r@ == mime_spec(
            message_type@,
            match voice_format {
                Some(f) => Some(f@),
                None => None,
            },
        ),
{
    if str_eq(message_type, "image") {
        "image/jpeg"
    } else if str_eq(message_type, "voice") {
        match voice_format {
            Some(f) => if str_eq(f, "mp3") {
                "audio/mpeg"
            } else if str_eq(f, "wav") {
                "audio/wav"
            } else {
                "audio/amr"
            },
            None => "audio/amr",
        }
    } else if str_eq(message_type, "video") || str_eq(message_type, "shortvideo") {
        "video/mp4"
    } else {
        "application/octet-stream"
    }
}

/// The file extension of a MIME type.
pub fn extension_for_mime(mime: &str) -> (r: &'static str)
    ensures
        r@ == extension_spec(mime@),
{
    if str_eq(mime, "image/jpeg") {
        ".jpg"
    } else if str_eq(mime, "audio/mpeg") {
        ".mp3"
    } else if str_eq(mime, "audio/wav") {
        ".wav"
    } else if str_eq(mime, "audio/amr") {
        ".amr"
    } else if str_eq(mime, "video/mp4") {
        ".mp4"
    } else {
        ".bin"
    }
}

/// The prompt of a message type.
pub fn prompt(message_type: &str, prompts: &MediaPrompts) -> (r: String)
    ensures
        r@ == prompt_spec(message_type@, *prompts),
{
    if str_eq(message_type, "image") {
        string_from(prompts.image_prompt.as_str())
    } else if str_eq(message_type, "voice") {
        string_from(prompts.voice_prompt.as_str())
    } else if str_eq(message_type, "video") || str_eq(message_type, "shortvideo") {
        string_from(prompts.video_prompt.as_str())
    } else {
        String::new()
    }
}

/// What to do for a media message: which media to download and where to,
/// and how to ask the model about it.
#[derive(Debug, Clone, PartialEq, Eq)]
pub struct MediaPlan {
    pub media_id: String,
    pub kind: MediaKind,
    pub artifact_kind: ProcessedArtifactKind,
    pub mime_type: String,
    pub prompt: String,
    pub target_path: String,
}

/// The plan of a media message: an error without a media id or for a type
/// that is no media; else the kinds, MIME type and prompt of its type, and
/// the download path `raw_root/key/media.original.ext`.
pub open spec fn media_plan_matches(m: StoredMessage, prompts: MediaPrompts, raw_root: Seq<char>, r: Result<MediaPlan, BridgeError>) -> bool {
    let t = m.message_type@;
    match m.media_id {
        None => r matches Err(e) && e@ == (ErrorKind::ExternalPayloadInvalid, "media_id missing"@),
        Some(id) => match media_kind_spec(t) {
            Err(e) => r matches Err(x) && x@ == e,
            Ok(kind) => {
                let mime = mime_spec(t, crate::config::settings::opt_str(m.voice_format));
                r matches Ok(p) && p.media_id@ == id@ && p.kind == kind && artifact_kind_spec(t)
                    == Ok::<ProcessedArtifactKind, ErrorView>(p.artifact_kind) && p.mime_type@ == mime
                    && p.prompt@ == prompt_spec(t, prompts) && p.target_path@
                    == crate::source::join_spec(
                    crate::source::join_spec(raw_root, crate::worker::stored_message_key(m)),
                    "media.original"@ + extension_spec(mime),
                )
            },
        },
    }
}

/// Plans a media message (see `media_plan_matches`).
pub fn plan_media_message(message: &StoredMessage, prompts: &MediaPrompts, raw_root: &str) -> (r: Result<MediaPlan, BridgeError>)
    ensures
        media_plan_matches(*message, *prompts, raw_root@, r),
{
    let media_id = match &message.media_id {
        Some(id) => string_from(id.as_str()),
        None => return Err(BridgeError::ExternalPayloadInvalid(string_from("media_id missing"))),
    };
    let t = message.message_type.as_str();
    let kind = media_kind(t)?;
    let akind = artifact_kind(t)?;
    let voice = match &message.voice_format {
        Some(f) => Some(f.as_str()),
        None => None,
    };
    let mime = mime_type(t, voice);
    let p = prompt(t, prompts);
    let key = message_key(message);
    let dir = join_path(raw_root, key.as_str());
    let mut name = string_from("media.original");
    push_str(&mut name, extension_for_mime(mime));
    let target_path = join_path(dir.as_str(), name.as_str());
    Ok(MediaPlan {
        media_id,
        kind,
        artifact_kind: akind,
        mime_type: string_from(mime),
        prompt: p,
        target_path,
    })
}

/// The artifact of a media message from the model's answer about the
/// downloaded file.
pub fn media_artifact(message: &StoredMessage, plan: &MediaPlan, output: LlmOutput, downloaded_path: String) -> (r: ProcessedArtifact)
    ensures
        r.message_key@ == crate::worker::stored_message_key(*message),
        r.kind == plan.artifact_kind,
        r.markdown_body == output.text,
        r.provider == Some(output.provider),
        r.model == Some(output.model),
        r.raw_payload_paths@ == seq![downloaded_path],
        r.processed_payload_paths@.len() == 0,
        r.summary is None,
        r.external_service is None,
{
    let mut raw = Vec::new();
    raw.push(downloaded_path);
    process_model_output(
        ModelPreprocessOutput {
            message_key: message_key(message),
            kind: plan.artifact_kind,
            markdown_body: output.text,
            provider: output.provider,
            model: output.model,
            raw_payload_paths: raw,
            processed_payload_paths: Vec::new(),
        },
    )
}

/// Every media message gets a MIME type of its own medium: an image an
/// `image/` type, a voice an `audio/` type, a video or short video a
/// `video/` type; a video and a short video both get `video/mp4`,
/// whatever voice format is given; and no media message is saved as plain
/// bytes (`.bin`).
pub proof fn lemma_media_mime_matches_medium(t: Seq<char>, f: Option<Seq<char>>, g: Option<Seq<char>>)
    ensures
        t == "image"@ ==> crate::text::starts_with_spec(mime_spec(t, f), "image/"@),
        t == "voice"@ ==> crate::text::starts_with_spec(mime_spec(t, f), "audio/"@),
        t == "video"@ || t == "shortvideo"@ ==> crate::text::starts_with_spec(mime_spec(t, f), "video/"@),
        mime_spec("video"@, f) == "video/mp4"@,
        mime_spec("shortvideo"@, g) == mime_spec("video"@, f),
        t == "image"@ || t == "voice"@ || t == "video"@ || t == "shortvideo"@ ==> extension_spec(mime_spec(t, f))
            != ".bin"@,
{
    reveal_strlit("image");
    reveal_strlit("voice");
    reveal_strlit("video");
    reveal_strlit("shortvideo");
    reveal_strlit("image/");
    reveal_strlit("audio/");
    reveal_strlit("video/");
    reveal_strlit("image/jpeg");
    reveal_strlit("audio/mpeg");
    reveal_strlit("audio/wav");
    reveal_strlit("audio/amr");
    reveal_strlit("video/mp4");
    reveal_strlit(".bin");
    reveal_strlit(".jpg");
    reveal_strlit(".mp3");
    reveal_strlit(".wav");
    reveal_strlit(".amr");
    reveal_strlit(".mp4");
    assert("image/jpeg"@.take(6) =~= "image/"@);
    assert("audio/mpeg"@.take(6) =~= "audio/"@);
    assert("audio/wav"@.take(6) =~= "audio/"@);
    assert("audio/amr"@.take(6) =~= "audio/"@);
    assert("video/mp4"@.take(6) =~= "video/"@);
    assert("video"@.len() != "shortvideo"@.len());
    assert("image"@.len() != "shortvideo"@.len() && "voice"@.len() != "shortvideo"@.len());
    assert("image"@[0] != "voice"@[0] && "image"@[0] != "video"@[0] && "voice"@[1] != "video"@[1]);
    assert(".bin"@[1] != ".jpg"@[1] && ".bin"@[1] != ".mp3"@[1] && ".bin"@[1] != ".wav"@[1]);
    assert(".bin"@[1] != ".amr"@[1] && ".bin"@[1] != ".mp4"@[1]);
    assert("image/jpeg"@[0] != "audio/mpeg"@[0] && "image/jpeg"@[0] != "video/mp4"@[0]);
    assert("audio/mpeg"@[0] != "video/mp4"@[0]);
    assert("audio/mpeg"@.len() != "audio/wav"@.len() && "audio/mpeg"@.len() != "audio/amr"@.len());
    assert("audio/wav"@[6] != "audio/amr"@[6]);
    assert("image/jpeg"@[0] != "audio/wav"@[0] && "image/jpeg"@[0] != "audio/amr"@[0]);
}

/// The four media message types: image, voice, video and short video.
pub open spec fn is_media_type(t: Seq<char>) -> bool {
    t == "image"@ || t == "voice"@ || t == "video"@ || t == "shortvideo"@
}

/// Exactly the four media message types have a media kind and an artifact
/// kind, different types getting different kinds; any other type is refused
/// as unsupported, naming the type. Video and short video share the video
/// prompt; images and voices get their own prompts.
pub proof fn lemma_media_types_map_one_to_one(t1: Seq<char>, t2: Seq<char>, p: MediaPrompts)
    ensures
        is_media_type(t1) <==> media_kind_spec(t1) is Ok,
        is_media_type(t1) <==> artifact_kind_spec(t1) is Ok,
        !is_media_type(t1) ==> media_kind_spec(t1) == Err::<MediaKind, ErrorView>((ErrorKind::MessageUnsupported, t1)),
        is_media_type(t1) && is_media_type(t2) && t1 != t2 ==> media_kind_spec(t1) != media_kind_spec(t2)
            && artifact_kind_spec(t1) != artifact_kind_spec(t2),
        prompt_spec("shortvideo"@, p) == p.video_prompt@ && prompt_spec("video"@, p) == p.video_prompt@,
        prompt_spec("image"@, p) == p.image_prompt@ && prompt_spec("voice"@, p) == p.voice_prompt@,
{
    reveal_strlit("image");
    reveal_strlit("voice");
    reveal_strlit("video");
    reveal_strlit("shortvideo");
    assert("video"@.len() != "shortvideo"@.len());
    assert("image"@.len() != "shortvideo"@.len() && "voice"@.len() != "shortvideo"@.len());
    assert("image"@[0] != "voice"@[0] && "image"@[0] != "video"@[0] && "voice"@[1] != "video"@[1]);
}

} // verus!
