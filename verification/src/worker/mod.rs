//! The worker: what it does with each queued message.
//!
//! Each step that needs the store, the file system or an outside service is
//! left to the caller, which runs the job loop; the library decides what to
//! do for a message and builds the results.
use vstd::prelude::*;

use crate::enrich::LocationSummary;
use crate::error::{BridgeError, ErrorKind, ErrorView};
use crate::preprocess::artifact::{ProcessedArtifact, ProcessedArtifactKind};
use crate::source::SourceMetadata;
use crate::store::StoredMessage;
use crate::text::{i64_to_dec, push_str, str_eq, string_from, trim};
use crate::wechat::message::{CommonFields, LinkMessage, LocationMessage};
use crate::wechat::types::{OpenId, UrlString, WechatMsgId};

pub mod media_processor;
pub mod urls;

verus! {

/// How long a failed job waits before it is tried again: the base delay,
/// doubled for each earlier attempt up to five doublings, and never more
/// than the maximum. Delays are whole seconds.
#[derive(Debug, Clone, Copy, PartialEq, Eq, Structural)]
pub struct RetryPolicy {
    pub base_delay_secs: u64,
    pub max_delay_secs: u64,
}

impl Default for RetryPolicy {
    /// Ten seconds, at most five minutes.
    fn default() -> (r: Self)
        ensures
            r.base_delay_secs == 10,
            r.max_delay_secs == 300,
    {
        RetryPolicy { base_delay_secs: 10, max_delay_secs: 300 }
    }
}

/// What one turn of the worker did.
#[derive(Debug, Clone, PartialEq, Eq)]
pub enum WorkOutcome {
    NoJob,
    Done { job_id: i64, source_path: String },
}

/// The outside-service stand-in used when no clients are configured.
#[derive(Debug, Default, Clone, Copy)]
pub struct NoopExternalClients;

/// The media stand-in used when no media processor is configured.
#[derive(Debug, Default, Clone, Copy)]
pub struct NoopMediaJobProcessor;

impl NoopExternalClients {
    /// Refuses: no reverse geocoder is configured.
    pub fn reverse_geocode(&self, latitude: &str, longitude: &str) -> (r: Result<String, BridgeError>)
        ensures
            r matches Err(e) && e@ == (
                ErrorKind::ExternalPayloadInvalid,
                "reverse geocode client not configured"@,
            ),
    {
        Err(BridgeError::ExternalPayloadInvalid(string_from("reverse geocode client not configured")))
    }

    /// Refuses: no reader is configured.
    pub fn read_link(&self, url: &str) -> (r: Result<String, BridgeError>)
        ensures
            r matches Err(e) && e@ == (ErrorKind::ExternalPayloadInvalid, "jina reader client not configured"@),
    {
        Err(BridgeError::ExternalPayloadInvalid(string_from("jina reader client not configured")))
    }
}

impl NoopMediaJobProcessor {
    /// Refuses: no media processor is configured.
    pub fn process_media_message(&self, message: &StoredMessage) -> (r: Result<ProcessedArtifact, BridgeError>)
        ensures
            r matches Err(e) && e@ == (
                ErrorKind::MessageUnsupported,
                "media processor not configured for "@ + message.message_type@,
            ),
    {
        let mut m = string_from("media processor not configured for ");
        push_str(&mut m, message.message_type.as_str());
        Err(BridgeError::MessageUnsupported(m))
    }
}

/// `2` to the power `e`.
pub open spec fn pow2(e: nat) -> int
    decreases e,
{
    if e == 0 {
        1
    } else {
        2 * pow2((e - 1) as nat)
    }
}

/// The number of doublings after `attempts` attempts: one less than the
/// attempts, between zero and five.
pub open spec fn doublings(attempts: i64) -> nat {
    if attempts <= 1 {
        0
    } else if attempts >= 6 {
        5
    } else {
        (attempts - 1) as nat
    }
}

/// A number of seconds as a signed 64-bit count, capped at its maximum.
pub open spec fn capped_i64(n: u64) -> int {
    if n > i64::MAX {
        i64::MAX as int
    } else {
        n as int
    }
}

/// The delay after `attempts` attempts: the base times two to the number
/// of doublings, saturating at the largest 64-bit count, then at most the
/// maximum.
pub open spec fn retry_delay_spec(attempts: i64, policy: RetryPolicy) -> int {
    let product = capped_i64(policy.base_delay_secs) * pow2(doublings(attempts));
    let saturated = if product > i64::MAX {
        i64::MAX as int
    } else {
        product
    };
    if saturated < capped_i64(policy.max_delay_secs) {
        saturated
    } else {
        capped_i64(policy.max_delay_secs)
    }
}

/// The retry delay in seconds after `attempts` attempts (see `retry_delay_spec`).
pub fn retry_delay_seconds(attempts: i64, retry_policy: RetryPolicy) -> (r: i64)
    ensures
        r == retry_delay_spec(attempts, retry_policy),
{
    let exponent: u32 = if attempts <= 1 {
        0
    } else if attempts >= 6 {
        5
    } else {
        (attempts - 1) as u32
    };
    let base: i64 = if retry_policy.base_delay_secs > i64::MAX as u64 {
        i64::MAX
    } else {
        retry_policy.base_delay_secs as i64
    };
    let max: i64 = if retry_policy.max_delay_secs > i64::MAX as u64 {
        i64::MAX
    } else {
        retry_policy.max_delay_secs as i64
    };
    let factor: i64 = if exponent == 0 {
        1
    } else if exponent == 1 {
        2
    } else if exponent == 2 {
        4
    } else if exponent == 3 {
        8
    } else if exponent == 4 {
        16
    } else {
        32
    };
    proof {
        reveal_with_fuel(pow2, 6);
    }
    assert(factor == pow2(exponent as nat));
    assert(exponent as nat == doublings(attempts));
    let product: i64 = if base > i64::MAX / factor {
        assert(base * factor > i64::MAX) by (nonlinear_arith)
            requires
                base > i64::MAX / factor,
                factor >= 1,
        ;
        i64::MAX
    } else {
        assert(base * factor <= i64::MAX) by (nonlinear_arith)
            requires
                base <= i64::MAX / factor,
                factor >= 1,
                base >= 0,
        ;
        base * factor
    };
    if product < max {
        product
    } else {
        max
    }
}

proof fn lemma_pow2_monotone(a: nat, b: nat)
    requires
        a <= b,
    ensures
        1 <= pow2(a) <= pow2(b),
    decreases b,
{
    if b > 0 {
        if a == b {
            lemma_pow2_monotone((a - 1) as nat, (b - 1) as nat);
        } else {
            lemma_pow2_monotone(a, (b - 1) as nat);
        }
    }
}

/// Retry delays never exceed the policy's maximum (capped to 64 bits), are
/// never negative, and do not shrink as attempts grow.
pub proof fn lemma_retry_delay_bounded_and_monotone(a1: i64, a2: i64, policy: RetryPolicy)
    requires
        a1 <= a2,
    ensures
        0 <= retry_delay_spec(a1, policy) <= capped_i64(policy.max_delay_secs),
        retry_delay_spec(a1, policy) <= retry_delay_spec(a2, policy),
{
    let base = capped_i64(policy.base_delay_secs);
    lemma_pow2_monotone(doublings(a1), doublings(a2));
    assert(base * pow2(doublings(a1)) <= base * pow2(doublings(a2))) by (nonlinear_arith)
        requires
            base >= 0,
            pow2(doublings(a1)) <= pow2(doublings(a2)),
    ;
    assert(base * pow2(doublings(a1)) >= 0) by (nonlinear_arith)
        requires
            base >= 0,
            pow2(doublings(a1)) >= 1,
    ;
}

/// The smaller of two numbers.
pub open spec fn min_int(x: int, y: int) -> int {
    if x <= y {
        x
    } else {
        y
    }
}

/// How retry delays grow: the first attempt waits the base delay (at most
/// the maximum); each attempt after it, through the sixth, waits twice the
/// delay before it, until the maximum is reached; from the sixth attempt
/// on the delay no longer changes. Delays are counted in 64 bits, so the
/// base and the maximum count as at most `i64::MAX`.
pub proof fn lemma_retry_delay_doubles(a: i64, policy: RetryPolicy)
    ensures
        a <= 1 ==> retry_delay_spec(a, policy) == min_int(
            capped_i64(policy.base_delay_secs),
            capped_i64(policy.max_delay_secs),
        ),
        1 <= a < 6 ==> retry_delay_spec((a + 1) as i64, policy) == min_int(
            2 * retry_delay_spec(a, policy),
            capped_i64(policy.max_delay_secs),
        ),
        6 <= a < i64::MAX ==> retry_delay_spec((a + 1) as i64, policy) == retry_delay_spec(a, policy),
{
    let b = capped_i64(policy.base_delay_secs);
    let m = capped_i64(policy.max_delay_secs);
    if 1 <= a < 6 {
        let k = doublings(a);
        assert(doublings((a + 1) as i64) == k + 1);
        assert(pow2(k + 1) == 2 * pow2(k));
        lemma_pow2_monotone(0, k);
        let p1 = b * pow2(k);
        assert(b * pow2(k + 1) == 2 * p1 && p1 >= 0) by (nonlinear_arith)
            requires
                pow2(k + 1) == 2 * pow2(k),
                p1 == b * pow2(k),
                b >= 0,
                pow2(k) >= 1,
        ;
    }
}

/// The key of a stored message: WeChat's message id, else `message_{id}`.
pub open spec fn stored_message_key(m: StoredMessage) -> Seq<char> {
    match m.wechat_msg_id {
        Some(id) => id@,
        None => "message_"@ + crate::text::signed_dec_spec(m.id as int),
    }
}

/// The key of a stored message (see `stored_message_key`).
pub fn message_key(message: &StoredMessage) -> (r: String)
    ensures
        r@ == stored_message_key(*message),
{
    match &message.wechat_msg_id {
        Some(id) => string_from(id.as_str()),
        None => {
            let mut k = string_from("message_");
            let n = i64_to_dec(message.id);
            push_str(&mut k, n.as_str());
            k
        },
    }
}

/// The header fields a stored message keeps: its creation time (zero when
/// unknown) and message id; the sender stands as `stored`.
pub fn common_from_stored_message(message: &StoredMessage) -> (r: CommonFields)
    ensures
        r.to_user_name@ == Seq::<char>::empty(),
        r.from_user_name@ == "stored"@,
        r.create_time == match message.create_time {
            Some(t) => t,
            None => 0,
        },
        crate::wechat::message::opt_msg_id_view(r.msg_id) == crate::wechat::message::opt_view(
            message.wechat_msg_id,
        ),
{
    CommonFields {
        to_user_name: String::new(),
        from_user_name: OpenId::new("stored"),
        create_time: match message.create_time {
            Some(t) => t,
            None => 0,
        },
        msg_id: match &message.wechat_msg_id {
            Some(id) => Some(WechatMsgId::new(id.as_str())),
            None => None,
        },
    }
}

fn copy_opt(v: &Option<String>) -> (r: Option<String>)
    ensures
        crate::wechat::message::opt_view(r) == crate::wechat::message::opt_view(*v),
{
    match v {
        Some(s) => Some(string_from(s.as_str())),
        None => None,
    }
}

/// The source metadata of a stored message, with the artifact's provider,
/// model and outside service where the artifact names them.
pub open spec fn metadata_matches(m: SourceMetadata, message: StoredMessage, bridge_version: Seq<char>, a: ProcessedArtifact) -> bool {
    &&& crate::wechat::message::opt_view(m.wechat_msg_id) == crate::wechat::message::opt_view(
        message.wechat_msg_id,
    )
    &&& m.message_type@ == message.message_type@
    &&& m.received_at@ == message.received_at@
    &&& m.wechat_create_time == message.create_time
    &&& m.openid_hash@ == message.from_openid_hash@
    &&& m.raw_dir matches Some(d) && d@ == message.raw_dir@
    &&& crate::wechat::message::opt_view(m.provider) == crate::wechat::message::opt_view(a.provider)
    &&& crate::wechat::message::opt_view(m.model) == crate::wechat::message::opt_view(a.model)
    &&& crate::wechat::message::opt_view(m.external_service) == crate::wechat::message::opt_view(
        a.external_service,
    )
    &&& m.bridge_version@ == bridge_version
}

/// The source metadata of a stored message and its artifact (see `metadata_matches`).
pub fn metadata_from_stored_message(message: &StoredMessage, bridge_version: &str, artifact: &ProcessedArtifact) -> (r: SourceMetadata)
    ensures
        metadata_matches(r, *message, bridge_version@, *artifact),
{
    SourceMetadata {
        wechat_msg_id: copy_opt(&message.wechat_msg_id),
        message_type: string_from(message.message_type.as_str()),
        received_at: string_from(message.received_at.as_str()),
        wechat_create_time: message.create_time,
        openid_hash: string_from(message.from_openid_hash.as_str()),
        raw_dir: Some(string_from(message.raw_dir.as_str())),
        provider: copy_opt(&artifact.provider),
        model: copy_opt(&artifact.model),
        external_service: copy_opt(&artifact.external_service),
        bridge_version: string_from(bridge_version),
    }
}

/// What the worker must do for a stored message.
#[derive(Debug, Clone, PartialEq, Eq)]
pub enum ProcessingPlan {
    /// Read each link of the text, then build the text artifact.
    Text { content: String, urls: Vec<String> },
    /// Reverse-geocode the coordinates, then build the location artifact.
    Location { latitude: String, longitude: String },
    /// Read the linked page, then build the link artifact.
    Link { url: String },
    /// Hand the message to the media processor.
    Media,
}

/// The error of a stored message that lacks a field its type needs.
pub open spec fn missing_field(name: Seq<char>) -> ErrorView {
    (ErrorKind::ExternalPayloadInvalid, name + " missing"@)
}

/// What the worker does for a stored message: texts have their links read,
/// locations are reverse-geocoded, links are read, media go to the media
/// processor; a location without coordinates or a link without a URL is an
/// error, as is any other type.
pub open spec fn plan_matches(m: StoredMessage, r: Result<ProcessingPlan, BridgeError>) -> bool {
    let t = m.message_type@;
    if t == "text"@ {
        r matches Ok(ProcessingPlan::Text { content, urls }) && content@ == match m.content_text {
            Some(c) => c@,
            None => Seq::empty(),
        } && crate::config::app::strings_view(urls@) == crate::worker::urls::extract_urls_spec(
            content@,
        )
    } else if t == "location"@ {
        match (m.location_lat, m.location_lng) {
            (None, _) => r matches Err(e) && e@ == missing_field("location_lat"@),
            (Some(_), None) => r matches Err(e) && e@ == missing_field("location_lng"@),
            (Some(lat), Some(lng)) => r matches Ok(ProcessingPlan::Location { latitude, longitude })
                && latitude@ == lat@ && longitude@ == lng@,
        }
    } else if t == "link"@ {
        match m.link_url {
            None => r matches Err(e) && e@ == missing_field("link_url"@),
            Some(u) => r matches Ok(ProcessingPlan::Link { url }) && url@ == u@,
        }
    } else if crate::wechat::message::is_media_type(t) {
        r matches Ok(ProcessingPlan::Media)
    } else {
        r matches Err(e) && e@ == (
            ErrorKind::MessageUnsupported,
            "worker does not process "@ + t + " yet"@,
        )
    }
}

/// How the worker routes a stored message: a text is always planned, with
/// its links; images, voices, videos and short videos, and only they, go
/// to the media processor; a location or link is planned exactly when it
/// carries its coordinates or URL; any other type is refused as
/// unsupported.
pub proof fn lemma_plans_route_by_type(m: StoredMessage, r: Result<ProcessingPlan, BridgeError>)
    requires
        plan_matches(m, r),
    ensures
        m.message_type@ == "text"@ ==> r matches Ok(ProcessingPlan::Text { .. }),
        (m.message_type@ == "image"@ || m.message_type@ == "voice"@ || m.message_type@ == "video"@
            || m.message_type@ == "shortvideo"@) ==> r matches Ok(ProcessingPlan::Media),
        r matches Ok(ProcessingPlan::Media) ==> (m.message_type@ == "image"@ || m.message_type@ == "voice"@
            || m.message_type@ == "video"@ || m.message_type@ == "shortvideo"@),
        m.message_type@ == "location"@ ==> (r is Ok <==> m.location_lat is Some && m.location_lng is Some),
        m.message_type@ == "link"@ ==> (r is Ok <==> m.link_url is Some),
        !(m.message_type@ == "text"@ || m.message_type@ == "location"@ || m.message_type@ == "link"@
            || m.message_type@ == "image"@ || m.message_type@ == "voice"@ || m.message_type@ == "video"@
            || m.message_type@ == "shortvideo"@) ==> (r matches Err(e) && e@.0 == ErrorKind::MessageUnsupported),
{
    reveal_strlit("text");
    reveal_strlit("location");
    reveal_strlit("link");
    reveal_strlit("image");
    reveal_strlit("voice");
    reveal_strlit("video");
    reveal_strlit("shortvideo");
    let t = m.message_type@;
    assert("text"@ != "image"@ && "text"@ != "voice"@ && "text"@ != "video"@ && "text"@ != "shortvideo"@) by {
        assert("text"@.len() != "image"@.len() && "text"@.len() != "shortvideo"@.len());
        assert("text"@[0] != "voice"@[0] && "text"@[0] != "video"@[0]);
    }
    assert("location"@ != "image"@ && "location"@ != "voice"@ && "location"@ != "video"@
        && "location"@ != "shortvideo"@) by {
        assert("location"@.len() != "image"@.len() && "location"@.len() != "shortvideo"@.len());
        assert("location"@.len() != "voice"@.len() && "location"@.len() != "video"@.len());
    }
    assert("link"@ != "image"@ && "link"@ != "voice"@ && "link"@ != "video"@ && "link"@ != "shortvideo"@) by {
        assert("link"@.len() != "image"@.len() && "link"@.len() != "shortvideo"@.len());
        assert("link"@.len() != "voice"@.len() && "link"@.len() != "video"@.len());
    }
    assert("text"@ != "location"@ && "text"@ != "link"@ && "location"@ != "link"@) by {
        assert("text"@.len() != "location"@.len() && "location"@.len() != "link"@.len());
        assert("text"@[1] != "link"@[1]);
    }
}

fn missing(name: &str) -> (e: BridgeError)
    ensures
        e@ == missing_field(name@),
{
    let mut m = string_from(name);
    push_str(&mut m, " missing");
    BridgeError::ExternalPayloadInvalid(m)
}

/// Decides what to do for a stored message (see `plan_matches`).
pub fn plan_stored_message(message: &StoredMessage) -> (r: Result<ProcessingPlan, BridgeError>)
    ensures
        plan_matches(*message, r),
{
    let t = message.message_type.as_str();
    if str_eq(t, "text") {
        let content = match &message.content_text {
            Some(c) => string_from(c.as_str()),
            None => String::new(),
        };
        let urls = crate::worker::urls::extract_http_urls(content.as_str());
        Ok(ProcessingPlan::Text { content, urls })
    } else if str_eq(t, "location") {
        let latitude = match &message.location_lat {
            Some(v) => string_from(v.as_str()),
            None => return Err(missing("location_lat")),
        };
        let longitude = match &message.location_lng {
            Some(v) => string_from(v.as_str()),
            None => return Err(missing("location_lng")),
        };
        Ok(ProcessingPlan::Location { latitude, longitude })
    } else if str_eq(t, "link") {
        match &message.link_url {
            Some(u) => Ok(ProcessingPlan::Link { url: string_from(u.as_str()) }),
            None => Err(missing("link_url")),
        }
    } else if str_eq(t, "image") || str_eq(t, "voice") || str_eq(t, "video") || str_eq(t, "shortvideo") {
        Ok(ProcessingPlan::Media)
    } else {
        let mut m = string_from("worker does not process ");
        push_str(&mut m, t);
        push_str(&mut m, " yet");
        Err(BridgeError::MessageUnsupported(m))
    }
}

/// What the reader gave for one link of a text.
#[derive(Debug, Clone, PartialEq, Eq)]
pub struct LinkReading {
    pub url: String,
    pub markdown: String,
    pub payload_path: Option<String>,
}

/// The section of one link reading.
pub open spec fn reading_section(r: LinkReading) -> Seq<char> {
    "### "@ + r.url@ + "\n\n"@ + crate::text::trim_spec(r.markdown@) + "\n\n"@
}

/// The sections of the link readings, in order.
pub open spec fn reading_sections(rs: Seq<LinkReading>) -> Seq<char>
    decreases rs.len(),
{
    if rs.len() == 0 {
        Seq::empty()
    } else {
        reading_sections(rs.drop_last()) + reading_section(rs.last())
    }
}

/// The payload paths of the readings that were kept, in order.
pub open spec fn reading_paths(rs: Seq<LinkReading>) -> Seq<Seq<char>>
    decreases rs.len(),
{
    if rs.len() == 0 {
        Seq::empty()
    } else {
        match rs.last().payload_path {
            Some(p) => reading_paths(rs.drop_last()).push(p@),
            None => reading_paths(rs.drop_last()),
        }
    }
}

/// The file name under which the reading of the `n`-th link (from one) is kept.
pub open spec fn reading_file_name(n: nat) -> Seq<char> {
    "text-link-"@ + crate::text::dec_spec(n) + ".jina-reader.md"@
}

/// The file name under which the reading of the `n`-th link (from one) is kept.
pub fn reading_file_name_for(n: u64) -> (r: String)
    ensures
        r@ == reading_file_name(n as nat),
{
    let mut s = string_from("text-link-");
    let d = crate::text::u64_to_dec(n);
    push_str(&mut s, d.as_str());
    push_str(&mut s, ".jina-reader.md");
    s
}

/// The name of a link's reading is `text-link-`, the decimal digits of the
/// link's number, and `.jina-reader.md`; so different links never share a
/// file name.
pub proof fn lemma_reading_file_names_differ(n1: nat, n2: nat)
    ensures
        ({
            let name = reading_file_name(n1);
            let digits = name.subrange(10, name.len() - 15);
            &&& name.len() > 25
            &&& name.take(10) == "text-link-"@
            &&& name.skip(name.len() - 15) == ".jina-reader.md"@
            &&& forall|i: int| 0 <= i < digits.len() ==> '0' <= #[trigger] digits[i] <= '9'
            &&& crate::text::dec_value(digits) == n1
        }),
        reading_file_name(n1) == reading_file_name(n2) ==> n1 == n2,
{
    reveal_strlit("text-link-");
    reveal_strlit(".jina-reader.md");
    crate::text::lemma_dec_spec_digits(n1);
    crate::text::lemma_dec_spec_digits(n2);
    let d1 = crate::text::dec_spec(n1);
    let name = reading_file_name(n1);
    assert(name.take(10) =~= "text-link-"@);
    assert(name.skip(name.len() - 15) =~= ".jina-reader.md"@);
    assert(name.subrange(10, name.len() - 15) =~= d1);
    if reading_file_name(n1) == reading_file_name(n2) {
        let name2 = reading_file_name(n2);
        assert(name2.subrange(10, name2.len() - 15) =~= crate::text::dec_spec(n2));
    }
}

/// The artifact of a text message: without links, the text itself; with
/// links, the original text and then each link's reader content, noting the
/// reader as the outside service and the kept readings as payloads.
pub open spec fn text_artifact_matches(m: StoredMessage, content: Seq<char>, rs: Seq<LinkReading>, a: ProcessedArtifact) -> bool {
    &&& a.message_key@ == stored_message_key(m)
    &&& a.kind == ProcessedArtifactKind::Text
    &&& if rs.len() == 0 {
        &&& a.markdown_body@ == content
        &&& a.external_service is None
        &&& a.processed_payload_paths@.len() == 0
    } else {
        &&& a.markdown_body@ == "## Original Text\n\n"@ + crate::text::trim_spec(content)
            + "\n\n## Reader Content\n\n"@ + reading_sections(rs)
        &&& a.external_service matches Some(s) && s@ == "jina_reader"@
        &&& crate::config::app::strings_view(a.processed_payload_paths@) == reading_paths(rs)
    }
    &&& a.summary is None
    &&& a.raw_payload_paths@.len() == 0
    &&& a.provider is None
    &&& a.model is None
}

/// Builds the artifact of a text message from its link readings (see
/// `text_artifact_matches`).
pub fn text_artifact(message: &StoredMessage, content: &str, readings: &Vec<LinkReading>) -> (r: ProcessedArtifact)
    ensures
        text_artifact_matches(*message, content@, readings@, r),
{
    let key = message_key(message);
    if readings.len() == 0 {
        return ProcessedArtifact::new(key.as_str(), ProcessedArtifactKind::Text, content);
    }
    let mut body = string_from("## Original Text\n\n");
    let t = trim(content);
    push_str(&mut body, t.as_str());
    push_str(&mut body, "\n\n## Reader Content\n\n");
    let ghost head = body@;
    let mut paths: Vec<String> = Vec::new();
    let mut i: usize = 0;
    assert(readings@.take(0) =~= Seq::<LinkReading>::empty());
    assert(crate::config::app::strings_view(paths@) =~= Seq::<Seq<char>>::empty());
    while i < readings.len()
        invariant
            i <= readings.len(),
            body@ == head + reading_sections(readings@.take(i as int)),
            crate::config::app::strings_view(paths@) == reading_paths(readings@.take(i as int)),
        decreases readings.len() - i,
    {
        let r = &readings[i];
        assert(readings@.take(i + 1).drop_last() == readings@.take(i as int));
        assert(readings@.take(i + 1).last() == *r);
        push_str(&mut body, "### ");
        push_str(&mut body, r.url.as_str());
        push_str(&mut body, "\n\n");
        let md = trim(r.markdown.as_str());
        push_str(&mut body, md.as_str());
        push_str(&mut body, "\n\n");
        match &r.payload_path {
            Some(p) => {
                let ghost before = paths@;
                paths.push(string_from(p.as_str()));
                assert(crate::config::app::strings_view(paths@) =~= crate::config::app::strings_view(before).push(p@));
            },
            None => {},
        }
        i += 1;
    }
    assert(readings@.take(readings.len() as int) == readings@);
    let mut artifact = ProcessedArtifact::new(key.as_str(), ProcessedArtifactKind::Text, body.as_str());
    artifact.external_service = Some(string_from("jina_reader"));
    artifact.processed_payload_paths = paths;
    artifact
}

/// The common fields of a stored message (see `common_from_stored_message`).
pub open spec fn stored_common_matches(c: CommonFields, m: StoredMessage) -> bool {
    &&& c.to_user_name@ == Seq::<char>::empty()
    &&& c.from_user_name@ == "stored"@
    &&& c.create_time == match m.create_time {
        Some(t) => t,
        None => 0,
    }
    &&& crate::wechat::message::opt_msg_id_view(c.msg_id) == crate::wechat::message::opt_view(
        m.wechat_msg_id,
    )
}

/// The location message of a stored message, with its coordinates.
pub fn location_message_of(message: &StoredMessage, latitude: &str, longitude: &str) -> (r: LocationMessage)
    ensures
        stored_common_matches(r.common, *message),
        r.latitude@ == latitude@,
        r.longitude@ == longitude@,
        r.scale == message.location_scale,
        crate::wechat::message::opt_view(r.label) == crate::wechat::message::opt_view(
            message.location_label,
        ),
{
    LocationMessage {
        common: common_from_stored_message(message),
        latitude: string_from(latitude),
        longitude: string_from(longitude),
        scale: message.location_scale,
        label: copy_opt(&message.location_label),
    }
}

/// The link message of a stored message, with its URL.
pub fn link_message_of(message: &StoredMessage, url: &str) -> (r: LinkMessage)
    ensures
        stored_common_matches(r.common, *message),
        crate::wechat::message::opt_view(r.title) == crate::wechat::message::opt_view(
            message.link_title,
        ),
        crate::wechat::message::opt_view(r.description) == crate::wechat::message::opt_view(
            message.link_description,
        ),
        r.url@ == url@,
{
    LinkMessage {
        common: common_from_stored_message(message),
        title: copy_opt(&message.link_title),
        description: copy_opt(&message.link_description),
        url: UrlString::new(url),
    }
}

/// Why an RFC 3339 time could not be shifted.
#[derive(Debug, Clone, Copy, PartialEq, Eq, Structural)]
pub enum TimeShiftError {
    Unparsable,
    OutOfRange,
    Unformattable,
}

/// What the time crate makes of an RFC 3339 time moved by a number of
/// seconds: the moved time as RFC 3339 text, or why there is none.
pub uninterp spec fn rfc3339_shift_spec(time: Seq<char>, seconds: int) -> Result<Seq<char>, TimeShiftError>;

/// `time::OffsetDateTime::parse` of an RFC 3339 time, `checked_add` of a
/// number of seconds, and `format` as RFC 3339.
/// Trusted: the result is what the crate gives for these arguments, each
/// failure mapped to its kind.
#[verifier::external_body]
pub(crate) fn shift_rfc3339(time_text: &str, seconds: i64) -> (r: Result<String, TimeShiftError>)
    ensures
        match r {
            Ok(s) => rfc3339_shift_spec(time_text@, seconds as int) is Ok
                && rfc3339_shift_spec(time_text@, seconds as int)->Ok_0 == s@,
            Err(e) => rfc3339_shift_spec(time_text@, seconds as int) is Err
                && rfc3339_shift_spec(time_text@, seconds as int)->Err_0 == e,
        },
{
    let rfc = &time::format_description::well_known::Rfc3339;
    let base = time::OffsetDateTime::parse(time_text, rfc).map_err(|_| TimeShiftError::Unparsable)?;
    let moved = base.checked_add(time::Duration::seconds(seconds)).ok_or(TimeShiftError::OutOfRange)?;
    moved.format(rfc).map_err(|_| TimeShiftError::Unformattable)
}

/// `time::OffsetDateTime::now_utc`, moved by a number of seconds and
/// formatted as RFC 3339.
/// Trusted: nothing is claimed of the result, which depends on the clock.
#[verifier::external_body]
pub(crate) fn now_utc_shifted(seconds: i64) -> (r: Result<String, TimeShiftError>)
{
    let rfc = &time::format_description::well_known::Rfc3339;
    let now = time::OffsetDateTime::now_utc();
    let moved = now.checked_add(time::Duration::seconds(seconds)).ok_or(TimeShiftError::OutOfRange)?;
    moved.format(rfc).map_err(|_| TimeShiftError::Unformattable)
}

/// The time `seconds` after `now`: `now` moved when it reads as RFC 3339;
/// the clock's time moved when it does not; `now` itself when the moved
/// time cannot be written.
pub fn shifted_time(now: &str, seconds: i64) -> (r: String)
    ensures
        match rfc3339_shift_spec(now@, seconds as int) {
            Ok(s) => r@ == s,
            Err(TimeShiftError::Unparsable) => true,
            Err(_) => r@ == now@,
        },
{
    match shift_rfc3339(now, seconds) {
        Ok(s) => s,
        Err(TimeShiftError::Unparsable) => match now_utc_shifted(seconds) {
            Ok(s) => s,
            Err(_) => string_from(now),
        },
        Err(_) => string_from(now),
    }
}

/// When a failed job may run again: `now` plus the retry delay of its
/// attempts (see `shifted_time` and `retry_delay_spec`).
pub fn next_retry_at(now: &str, attempts: i64, retry_policy: RetryPolicy) -> (r: String)
    ensures
        match rfc3339_shift_spec(now@, retry_delay_spec(attempts, retry_policy)) {
            Ok(s) => r@ == s,
            Err(TimeShiftError::Unparsable) => true,
            Err(_) => r@ == now@,
        },
{
    let delay = retry_delay_seconds(attempts, retry_policy);
    shifted_time(now, delay)
}

/// The time before which a job still processing counts as stale: `now`
/// less the processing timeout (capped at the largest 64-bit count).
pub fn stale_cutoff(now: &str, processing_timeout_secs: u64) -> (r: String)
    ensures
        match rfc3339_shift_spec(now@, -capped_i64(processing_timeout_secs)) {
            Ok(s) => r@ == s,
            Err(TimeShiftError::Unparsable) => true,
            Err(_) => r@ == now@,
        },
{
    let timeout: i64 = if processing_timeout_secs > i64::MAX as u64 {
        i64::MAX
    } else {
        processing_timeout_secs as i64
    };
    shifted_time(now, -timeout)
}

} // verus!
