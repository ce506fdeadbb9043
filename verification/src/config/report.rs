//! The configuration report: each setting with its value and where the
//! value came from, secrets redacted.
use vstd::prelude::*;

use crate::config::app::{AppConfig, EnvSecrets};
use crate::config::settings::{lookup, pairs_view};
use crate::text::{push_str, string_from, u64_to_dec};

verus! {

/// One line of the configuration report.
#[derive(Debug, Clone, PartialEq, Eq)]
pub struct ConfigReportEntry {
    pub key: String,
    pub flag: String,
    pub value: String,
    pub source: String,
    pub secret: bool,
}

/// A report line as mathematical values.
pub struct EntryView {
    pub key: Seq<char>,
    pub flag: Seq<char>,
    pub value: Seq<char>,
    pub source: Seq<char>,
    pub secret: bool,
}

impl View for ConfigReportEntry {
    type V = EntryView;

    open spec fn view(&self) -> EntryView {
        EntryView {
            key: self.key@,
            flag: self.flag@,
            value: self.value@,
            source: self.source@,
            secret: self.secret,
        }
    }
}

/// The views of report lines.
pub open spec fn entries_view(v: Seq<ConfigReportEntry>) -> Seq<EntryView> {
    v.map_values(|e: ConfigReportEntry| e@)
}

/// Where the value of `key` came from: the source recorded last for it, or
/// `default`.
pub open spec fn source_of(sources: Seq<(Seq<char>, Seq<char>)>, key: Seq<char>) -> Seq<char> {
    match crate::config::settings::lookup_spec(sources, key) {
        Some(s) => s,
        None => "default"@,
    }
}

/// A report line.
pub open spec fn entry_spec(
    key: Seq<char>,
    flag: Seq<char>,
    value: Seq<char>,
    sources: Seq<(Seq<char>, Seq<char>)>,
    secret: bool,
) -> EntryView {
    EntryView { key, flag, value, source: source_of(sources, key), secret }
}

/// The text of a boolean.
pub open spec fn bool_text(b: bool) -> Seq<char> {
    if b {
        "true"@
    } else {
        "false"@
    }
}

/// A secret as the report shows it: its length in UTF-8 bytes, or nothing
/// when it is absent or empty.
pub open spec fn redacted(v: Option<Seq<char>>) -> Seq<char> {
    match v {
        Some(s) => if s.len() > 0 {
            "<redacted:"@ + crate::text::dec_spec(vstd::utf8::encode_utf8(s).len()) + ">"@
        } else {
            Seq::empty()
        },
        None => Seq::empty(),
    }
}

/// The report of a configuration: every setting in a fixed order, then the
/// secrets, each with the source of its key.
pub open spec fn report_spec(app: AppConfig, secrets: EnvSecrets, sources: Seq<(Seq<char>, Seq<char>)>) -> Seq<EntryView> {
    Seq::empty()
        .push(entry_spec("APP_BIND_ADDR"@, "--bind-addr"@, app.bind_addr@, sources, false))
        .push(entry_spec("DATABASE_URL"@, "--database-url"@, app.database_url@, sources, false))
        .push(entry_spec("DATABASE_MAX_CONNECTIONS"@, "--database-max-connections"@, crate::text::dec_spec(app.database_max_connections as nat), sources, false))
        .push(entry_spec("DATABASE_MIN_CONNECTIONS"@, "--database-min-connections"@, crate::text::dec_spec(app.database_min_connections as nat), sources, false))
        .push(entry_spec("RAW_ARCHIVE_DIR"@, "--raw-archive-dir"@, app.raw_archive_dir@, sources, false))
        .push(entry_spec("RAW_ARCHIVE_FULL"@, "--raw-archive-full"@, bool_text(app.raw_archive_full), sources, false))
        .push(entry_spec("PROCESSED_ARTIFACT_DIR"@, "--processed-artifact-dir"@, app.processed_artifact_dir@, sources, false))
        .push(entry_spec("SAGE_WIKI_SOURCE_DIR"@, "--sage-wiki-source-dir"@, app.source_dir@, sources, false))
        .push(entry_spec("SAGE_WIKI_SOURCE_LOG_DIR"@, "--sage-wiki-source-log-dir"@, app.source_log_dir@, sources, false))
        .push(entry_spec("WECHAT_CALLBACK_PATH"@, "--wechat-callback-path"@, app.callback_path@, sources, false))
        .push(entry_spec("WECHAT_ENCRYPTED_CALLBACK_ENABLED"@, "--wechat-encrypted-callback-enabled"@, bool_text(app.encrypted_callback_enabled), sources, false))
        .push(entry_spec("HONEYPOT_REPLY_ENABLED"@, "--honeypot-reply-enabled"@, bool_text(app.honeypot_reply_enabled), sources, false))
        .push(entry_spec("HONEYPOT_REPLY_TEXT"@, "--honeypot-reply-text"@, app.honeypot_reply_text@, sources, false))
        .push(entry_spec("WORKER_ENABLED"@, "--worker-enabled"@, bool_text(app.worker_enabled), sources, false))
        .push(entry_spec("WORKER_ID"@, "--worker-id"@, app.worker_id@, sources, false))
        .push(entry_spec("BRIDGE_VERSION"@, "--bridge-version"@, app.bridge_version@, sources, false))
        .push(entry_spec("WORKER_INTERVAL_MS"@, "--worker-interval-ms"@, crate::text::dec_spec(app.worker_interval_ms as nat), sources, false))
        .push(entry_spec("WORKER_PROCESSING_TIMEOUT_SECONDS"@, "--worker-processing-timeout-seconds"@, crate::text::dec_spec(app.worker_processing_timeout_secs as nat), sources, false))
        .push(entry_spec("WORKER_RETRY_BASE_SECONDS"@, "--worker-retry-base-seconds"@, crate::text::dec_spec(app.worker_retry_base_secs as nat), sources, false))
        .push(entry_spec("WORKER_RETRY_MAX_SECONDS"@, "--worker-retry-max-seconds"@, crate::text::dec_spec(app.worker_retry_max_secs as nat), sources, false))
        .push(entry_spec("HTTP_TIMEOUT_SECONDS"@, "--http-timeout-seconds"@, crate::text::dec_spec(app.http_timeout_secs as nat), sources, false))
        .push(entry_spec("REQUEST_BODY_LIMIT_BYTES"@, "--request-body-limit-bytes"@, crate::text::dec_spec(app.request_body_limit_bytes as nat), sources, false))
        .push(entry_spec("HEALTHZ_PATH"@, "--healthz-path"@, app.healthz_path@, sources, false))
        .push(entry_spec("READYZ_PATH"@, "--readyz-path"@, app.readyz_path@, sources, false))
        .push(entry_spec("WECHAT_API_BASE"@, "--wechat-api-base"@, app.wechat_api_base@, sources, false))
        .push(entry_spec("MAX_MEDIA_BYTES"@, "--max-media-bytes"@, crate::text::dec_spec(app.max_media_bytes as nat), sources, false))
        .push(entry_spec("WECHAT_TOKEN_REFRESH_SKEW_SECONDS"@, "--wechat-token-refresh-skew-seconds"@, crate::text::dec_spec(app.wechat_token_refresh_skew_secs as nat), sources, false))
        .push(entry_spec("WHITELIST_JOIN_COMMAND"@, "--whitelist-join-command"@, match app.whitelist_join_command { Some(s) => s@, None => Seq::empty() }, sources, false))
        .push(entry_spec("GEMINI_ENDPOINT_BASE"@, "--gemini-endpoint-base"@, app.gemini_endpoint_base@, sources, false))
        .push(entry_spec("GEMINI_MODEL"@, "--gemini-model"@, app.gemini_model@, sources, false))
        .push(entry_spec("GEMINI_MAX_INLINE_BYTES"@, "--gemini-max-inline-bytes"@, crate::text::dec_spec(app.gemini_max_inline_bytes as nat), sources, false))
        .push(entry_spec("LLM_IMAGE_SYSTEM_PROMPT"@, "--llm-image-system-prompt"@, app.llm_image_system_prompt@, sources, false))
        .push(entry_spec("LLM_VOICE_SYSTEM_PROMPT"@, "--llm-voice-system-prompt"@, app.llm_voice_system_prompt@, sources, false))
        .push(entry_spec("LLM_VIDEO_SYSTEM_PROMPT"@, "--llm-video-system-prompt"@, app.llm_video_system_prompt@, sources, false))
        .push(entry_spec("TENCENT_LBS_ENDPOINT"@, "--tencent-lbs-endpoint"@, app.tencent_lbs_endpoint@, sources, false))
        .push(entry_spec("TENCENT_LBS_GET_POI"@, "--tencent-lbs-get-poi"@, bool_text(app.tencent_lbs_get_poi), sources, false))
        .push(entry_spec("TENCENT_LBS_RADIUS_METERS"@, "--tencent-lbs-radius-meters"@, match app.tencent_lbs_radius_meters { Some(n) => crate::text::dec_spec(n as nat), None => Seq::empty() }, sources, false))
        .push(entry_spec("JINA_READER_ENDPOINT"@, "--jina-reader-endpoint"@, app.jina_reader_endpoint@, sources, false))
        .push(entry_spec("RUST_LOG"@, "--rust-log"@, app.log_filter@, sources, false))
        .push(entry_spec("ADMIN_BASE_PATH"@, "--admin-base-path"@, app.admin_base_path@, sources, false))
        .push(entry_spec("ADMIN_DEFAULT_PER_PAGE"@, "--admin-default-per-page"@, crate::text::dec_spec(app.admin_default_per_page as nat), sources, false))
        .push(entry_spec("ADMIN_MAX_PER_PAGE"@, "--admin-max-per-page"@, crate::text::dec_spec(app.admin_max_per_page as nat), sources, false))
        .push(entry_spec("WECHAT_TOKEN"@, "--wechat-token"@, redacted(crate::config::settings::opt_str(secrets.wechat_token)), sources, true))
        .push(entry_spec("WECHAT_APP_ID"@, "--wechat-app-id"@, redacted(crate::config::settings::opt_str(secrets.wechat_app_id)), sources, true))
        .push(entry_spec("WECHAT_APP_SECRET"@, "--wechat-app-secret"@, redacted(crate::config::settings::opt_str(secrets.wechat_app_secret)), sources, true))
        .push(entry_spec("WECHAT_ENCODING_AES_KEY"@, "--wechat-encoding-aes-key"@, redacted(crate::config::settings::opt_str(secrets.wechat_encoding_aes_key)), sources, true))
        .push(entry_spec("ADMIN_VIEW_KEY"@, "--admin-view-key"@, redacted(crate::config::settings::opt_str(secrets.admin_view_key)), sources, true))
        .push(entry_spec("GEMINI_API_KEY"@, "--gemini-api-key"@, redacted(crate::config::settings::opt_str(secrets.gemini_api_key)), sources, true))
        .push(entry_spec("OPENAI_API_KEY"@, "--openai-api-key"@, redacted(crate::config::settings::opt_str(secrets.openai_api_key)), sources, true))
        .push(entry_spec("ANTHROPIC_API_KEY"@, "--anthropic-api-key"@, redacted(crate::config::settings::opt_str(secrets.anthropic_api_key)), sources, true))
        .push(entry_spec("TENCENT_LBS_KEY"@, "--tencent-lbs-key"@, redacted(crate::config::settings::opt_str(secrets.tencent_lbs_key)), sources, true))
        .push(entry_spec("JINA_API_KEY"@, "--jina-api-key"@, redacted(crate::config::settings::opt_str(secrets.jina_api_key)), sources, true))
        .push(
            entry_spec(
                "WECHAT_ADMIN_OPENIDS"@,
                "--wechat-admin-openids"@,
                "<redacted:"@ + crate::text::dec_spec(secrets.admin_openids.len() as nat) + ">"@,
                sources,
                true,
            ),
        )
}

/// Where the value of `key` came from.
pub fn source_for(sources: &Vec<(String, String)>, key: &str) -> (r: String)
    ensures
        r@ == source_of(pairs_view(sources@), key@),
{
    match lookup(sources, key) {
        Some(s) => s,
        None => string_from("default"),
    }
}

fn push_entry(
    entries: &mut Vec<ConfigReportEntry>,
    key: &str,
    flag: &str,
    value: String,
    sources: &Vec<(String, String)>,
    secret: bool,
)
    ensures
        entries_view(final(entries)@) == entries_view(old(entries)@).push(
            entry_spec(key@, flag@, value@, pairs_view(sources@), secret),
        ),
{
    let e = ConfigReportEntry {
        key: string_from(key),
        flag: string_from(flag),
        value,
        source: source_for(sources, key),
        secret,
    };
    let ghost before = entries@;
    entries.push(e);
    assert(entries_view(entries@) =~= entries_view(before).push(e@));
}

pub(crate) fn bool_string(b: bool) -> (r: String)
    ensures
        r@ == bool_text(b),
{
    if b {
        string_from("true")
    } else {
        string_from("false")
    }
}

fn redacted_string(v: &Option<String>) -> (r: String)
    ensures
        r@ == redacted(crate::config::settings::opt_str(*v)),
{
    match v {
        Some(s) => if !s.as_str().is_empty() {
            let mut out = string_from("<redacted:");
            let bytes = s.as_str().as_bytes();
            let n = u64_to_dec(bytes.len() as u64);
            push_str(&mut out, n.as_str());
            push_str(&mut out, ">");
            out
        } else {
            String::new()
        },
        None => String::new(),
    }
}

fn opt_string(v: &Option<String>) -> (r: String)
    ensures
        r@ == match *v {
            Some(s) => s@,
            None => Seq::<char>::empty(),
        },
{
    match v {
        Some(s) => string_from(s.as_str()),
        None => String::new(),
    }
}

/// The report of a configuration (see `report_spec`).
#[verifier::rlimit(60)]
pub fn config_report_entries(app: &AppConfig, secrets: &EnvSecrets, sources: &Vec<(String, String)>) -> (r: Vec<ConfigReportEntry>)
    ensures
        entries_view(r@) == report_spec(*app, *secrets, pairs_view(sources@)),
{
    let mut entries: Vec<ConfigReportEntry> = Vec::new();
    assert(entries_view(entries@) =~= Seq::<EntryView>::empty());
    push_entry(&mut entries, "APP_BIND_ADDR", "--bind-addr", string_from(app.bind_addr.as_str()), sources, false);
    push_entry(&mut entries, "DATABASE_URL", "--database-url", string_from(app.database_url.as_str()), sources, false);
    push_entry(&mut entries, "DATABASE_MAX_CONNECTIONS", "--database-max-connections", u64_to_dec(app.database_max_connections as u64), sources, false);
    push_entry(&mut entries, "DATABASE_MIN_CONNECTIONS", "--database-min-connections", u64_to_dec(app.database_min_connections as u64), sources, false);
    push_entry(&mut entries, "RAW_ARCHIVE_DIR", "--raw-archive-dir", string_from(app.raw_archive_dir.as_str()), sources, false);
    push_entry(&mut entries, "RAW_ARCHIVE_FULL", "--raw-archive-full", bool_string(app.raw_archive_full), sources, false);
    push_entry(&mut entries, "PROCESSED_ARTIFACT_DIR", "--processed-artifact-dir", string_from(app.processed_artifact_dir.as_str()), sources, false);
    push_entry(&mut entries, "SAGE_WIKI_SOURCE_DIR", "--sage-wiki-source-dir", string_from(app.source_dir.as_str()), sources, false);
    push_entry(&mut entries, "SAGE_WIKI_SOURCE_LOG_DIR", "--sage-wiki-source-log-dir", string_from(app.source_log_dir.as_str()), sources, false);
    push_entry(&mut entries, "WECHAT_CALLBACK_PATH", "--wechat-callback-path", string_from(app.callback_path.as_str()), sources, false);
    push_entry(&mut entries, "WECHAT_ENCRYPTED_CALLBACK_ENABLED", "--wechat-encrypted-callback-enabled", bool_string(app.encrypted_callback_enabled), sources, false);
    push_entry(&mut entries, "HONEYPOT_REPLY_ENABLED", "--honeypot-reply-enabled", bool_string(app.honeypot_reply_enabled), sources, false);
    push_entry(&mut entries, "HONEYPOT_REPLY_TEXT", "--honeypot-reply-text", string_from(app.honeypot_reply_text.as_str()), sources, false);
    push_entry(&mut entries, "WORKER_ENABLED", "--worker-enabled", bool_string(app.worker_enabled), sources, false);
    push_entry(&mut entries, "WORKER_ID", "--worker-id", string_from(app.worker_id.as_str()), sources, false);
    push_entry(&mut entries, "BRIDGE_VERSION", "--bridge-version", string_from(app.bridge_version.as_str()), sources, false);
    push_entry(&mut entries, "WORKER_INTERVAL_MS", "--worker-interval-ms", u64_to_dec(app.worker_interval_ms as u64), sources, false);
    push_entry(&mut entries, "WORKER_PROCESSING_TIMEOUT_SECONDS", "--worker-processing-timeout-seconds", u64_to_dec(app.worker_processing_timeout_secs as u64), sources, false);
    push_entry(&mut entries, "WORKER_RETRY_BASE_SECONDS", "--worker-retry-base-seconds", u64_to_dec(app.worker_retry_base_secs as u64), sources, false);
    push_entry(&mut entries, "WORKER_RETRY_MAX_SECONDS", "--worker-retry-max-seconds", u64_to_dec(app.worker_retry_max_secs as u64), sources, false);
    push_entry(&mut entries, "HTTP_TIMEOUT_SECONDS", "--http-timeout-seconds", u64_to_dec(app.http_timeout_secs as u64), sources, false);
    push_entry(&mut entries, "REQUEST_BODY_LIMIT_BYTES", "--request-body-limit-bytes", u64_to_dec(app.request_body_limit_bytes as u64), sources, false);
    push_entry(&mut entries, "HEALTHZ_PATH", "--healthz-path", string_from(app.healthz_path.as_str()), sources, false);
    push_entry(&mut entries, "READYZ_PATH", "--readyz-path", string_from(app.readyz_path.as_str()), sources, false);
    push_entry(&mut entries, "WECHAT_API_BASE", "--wechat-api-base", string_from(app.wechat_api_base.as_str()), sources, false);
    push_entry(&mut entries, "MAX_MEDIA_BYTES", "--max-media-bytes", u64_to_dec(app.max_media_bytes as u64), sources, false);
    push_entry(&mut entries, "WECHAT_TOKEN_REFRESH_SKEW_SECONDS", "--wechat-token-refresh-skew-seconds", u64_to_dec(app.wechat_token_refresh_skew_secs as u64), sources, false);
    push_entry(&mut entries, "WHITELIST_JOIN_COMMAND", "--whitelist-join-command", opt_string(&app.whitelist_join_command), sources, false);
    push_entry(&mut entries, "GEMINI_ENDPOINT_BASE", "--gemini-endpoint-base", string_from(app.gemini_endpoint_base.as_str()), sources, false);
    push_entry(&mut entries, "GEMINI_MODEL", "--gemini-model", string_from(app.gemini_model.as_str()), sources, false);
    push_entry(&mut entries, "GEMINI_MAX_INLINE_BYTES", "--gemini-max-inline-bytes", u64_to_dec(app.gemini_max_inline_bytes as u64), sources, false);
    push_entry(&mut entries, "LLM_IMAGE_SYSTEM_PROMPT", "--llm-image-system-prompt", string_from(app.llm_image_system_prompt.as_str()), sources, false);
    push_entry(&mut entries, "LLM_VOICE_SYSTEM_PROMPT", "--llm-voice-system-prompt", string_from(app.llm_voice_system_prompt.as_str()), sources, false);
    push_entry(&mut entries, "LLM_VIDEO_SYSTEM_PROMPT", "--llm-video-system-prompt", string_from(app.llm_video_system_prompt.as_str()), sources, false);
    push_entry(&mut entries, "TENCENT_LBS_ENDPOINT", "--tencent-lbs-endpoint", string_from(app.tencent_lbs_endpoint.as_str()), sources, false);
    push_entry(&mut entries, "TENCENT_LBS_GET_POI", "--tencent-lbs-get-poi", bool_string(app.tencent_lbs_get_poi), sources, false);
    push_entry(&mut entries, "TENCENT_LBS_RADIUS_METERS", "--tencent-lbs-radius-meters", match app.tencent_lbs_radius_meters { Some(n) => u64_to_dec(n as u64), None => String::new() }, sources, false);
    push_entry(&mut entries, "JINA_READER_ENDPOINT", "--jina-reader-endpoint", string_from(app.jina_reader_endpoint.as_str()), sources, false);
    push_entry(&mut entries, "RUST_LOG", "--rust-log", string_from(app.log_filter.as_str()), sources, false);
    push_entry(&mut entries, "ADMIN_BASE_PATH", "--admin-base-path", string_from(app.admin_base_path.as_str()), sources, false);
    push_entry(&mut entries, "ADMIN_DEFAULT_PER_PAGE", "--admin-default-per-page", u64_to_dec(app.admin_default_per_page as u64), sources, false);
    push_entry(&mut entries, "ADMIN_MAX_PER_PAGE", "--admin-max-per-page", u64_to_dec(app.admin_max_per_page as u64), sources, false);
    push_entry(&mut entries, "WECHAT_TOKEN", "--wechat-token", redacted_string(&secrets.wechat_token), sources, true);
    push_entry(&mut entries, "WECHAT_APP_ID", "--wechat-app-id", redacted_string(&secrets.wechat_app_id), sources, true);
    push_entry(&mut entries, "WECHAT_APP_SECRET", "--wechat-app-secret", redacted_string(&secrets.wechat_app_secret), sources, true);
    push_entry(&mut entries, "WECHAT_ENCODING_AES_KEY", "--wechat-encoding-aes-key", redacted_string(&secrets.wechat_encoding_aes_key), sources, true);
    push_entry(&mut entries, "ADMIN_VIEW_KEY", "--admin-view-key", redacted_string(&secrets.admin_view_key), sources, true);
    push_entry(&mut entries, "GEMINI_API_KEY", "--gemini-api-key", redacted_string(&secrets.gemini_api_key), sources, true);
    push_entry(&mut entries, "OPENAI_API_KEY", "--openai-api-key", redacted_string(&secrets.openai_api_key), sources, true);
    push_entry(&mut entries, "ANTHROPIC_API_KEY", "--anthropic-api-key", redacted_string(&secrets.anthropic_api_key), sources, true);
    push_entry(&mut entries, "TENCENT_LBS_KEY", "--tencent-lbs-key", redacted_string(&secrets.tencent_lbs_key), sources, true);
    push_entry(&mut entries, "JINA_API_KEY", "--jina-api-key", redacted_string(&secrets.jina_api_key), sources, true);
    let mut ids = string_from("<redacted:");
    let n = u64_to_dec(secrets.admin_openids.len() as u64);
    push_str(&mut ids, n.as_str());
    push_str(&mut ids, ">");
    push_entry(&mut entries, "WECHAT_ADMIN_OPENIDS", "--wechat-admin-openids", ids, sources, true);
    entries
}

/// The `i`-th key of the configuration report.
pub open spec fn report_key_at(i: int) -> Seq<char> {
    if i == 0 {
        "APP_BIND_ADDR"@
    } else
    if i == 1 {
        "DATABASE_URL"@
    } else
    if i == 2 {
        "DATABASE_MAX_CONNECTIONS"@
    } else
    if i == 3 {
        "DATABASE_MIN_CONNECTIONS"@
    } else
    if i == 4 {
        "RAW_ARCHIVE_DIR"@
    } else
    if i == 5 {
        "RAW_ARCHIVE_FULL"@
    } else
    if i == 6 {
        "PROCESSED_ARTIFACT_DIR"@
    } else
    if i == 7 {
        "SAGE_WIKI_SOURCE_DIR"@
    } else
    if i == 8 {
        "SAGE_WIKI_SOURCE_LOG_DIR"@
    } else
    if i == 9 {
        "WECHAT_CALLBACK_PATH"@
    } else
    if i == 10 {
        "WECHAT_ENCRYPTED_CALLBACK_ENABLED"@
    } else
    if i == 11 {
        "HONEYPOT_REPLY_ENABLED"@
    } else
    if i == 12 {
        "HONEYPOT_REPLY_TEXT"@
    } else
    if i == 13 {
        "WORKER_ENABLED"@
    } else
    if i == 14 {
        "WORKER_ID"@
    } else
    if i == 15 {
        "BRIDGE_VERSION"@
    } else
    if i == 16 {
        "WORKER_INTERVAL_MS"@
    } else
    if i == 17 {
        "WORKER_PROCESSING_TIMEOUT_SECONDS"@
    } else
    if i == 18 {
        "WORKER_RETRY_BASE_SECONDS"@
    } else
    if i == 19 {
        "WORKER_RETRY_MAX_SECONDS"@
    } else
    if i == 20 {
        "HTTP_TIMEOUT_SECONDS"@
    } else
    if i == 21 {
        "REQUEST_BODY_LIMIT_BYTES"@
    } else
    if i == 22 {
        "HEALTHZ_PATH"@
    } else
    if i == 23 {
        "READYZ_PATH"@
    } else
    if i == 24 {
        "WECHAT_API_BASE"@
    } else
    if i == 25 {
        "MAX_MEDIA_BYTES"@
    } else
    if i == 26 {
        "WECHAT_TOKEN_REFRESH_SKEW_SECONDS"@
    } else
    if i == 27 {
        "WHITELIST_JOIN_COMMAND"@
    } else
    if i == 28 {
        "GEMINI_ENDPOINT_BASE"@
    } else
    if i == 29 {
        "GEMINI_MODEL"@
    } else
    if i == 30 {
        "GEMINI_MAX_INLINE_BYTES"@
    } else
    if i == 31 {
        "LLM_IMAGE_SYSTEM_PROMPT"@
    } else
    if i == 32 {
        "LLM_VOICE_SYSTEM_PROMPT"@
    } else
    if i == 33 {
        "LLM_VIDEO_SYSTEM_PROMPT"@
    } else
    if i == 34 {
        "TENCENT_LBS_ENDPOINT"@
    } else
    if i == 35 {
        "TENCENT_LBS_GET_POI"@
    } else
    if i == 36 {
        "TENCENT_LBS_RADIUS_METERS"@
    } else
    if i == 37 {
        "JINA_READER_ENDPOINT"@
    } else
    if i == 38 {
        "RUST_LOG"@
    } else
    if i == 39 {
        "ADMIN_BASE_PATH"@
    } else
    if i == 40 {
        "ADMIN_DEFAULT_PER_PAGE"@
    } else
    if i == 41 {
        "ADMIN_MAX_PER_PAGE"@
    } else
    if i == 42 {
        "WECHAT_TOKEN"@
    } else
    if i == 43 {
        "WECHAT_APP_ID"@
    } else
    if i == 44 {
        "WECHAT_APP_SECRET"@
    } else
    if i == 45 {
        "WECHAT_ENCODING_AES_KEY"@
    } else
    if i == 46 {
        "ADMIN_VIEW_KEY"@
    } else
    if i == 47 {
        "GEMINI_API_KEY"@
    } else
    if i == 48 {
        "OPENAI_API_KEY"@
    } else
    if i == 49 {
        "ANTHROPIC_API_KEY"@
    } else
    if i == 50 {
        "TENCENT_LBS_KEY"@
    } else
    if i == 51 {
        "JINA_API_KEY"@
    } else {
        "WECHAT_ADMIN_OPENIDS"@
    }
}

/// The keys of the configuration report, in the order it lists them.
pub open spec fn report_keys() -> Seq<Seq<char>> {
    Seq::new(53, |i: int| report_key_at(i))
}

/// The keys whose values the report redacts: the credentials and the admin
/// OpenIDs, which the report lists last.
pub open spec fn secret_keys() -> Seq<Seq<char>> {
    report_keys().subrange(42, 53)
}

/// The position of a report key, told apart by its length and a few of its
/// characters; -1 for text that matches none.
spec fn key_rank(s: Seq<char>) -> int {
    if s.len() == 13 && s[0] == 'A' && s[1] == 'P' && s[4] == 'B' && s[5] == 'I' && s[10] == 'D' && s[12] == 'R' && s[11] == 'D' {
        0
    } else
    if s.len() == 12 && s[0] == 'D' && s[1] == 'A' && s[4] == 'B' && s[5] == 'A' && s[10] == 'R' && s[11] == 'L' && s[10] == 'R' {
        1
    } else
    if s.len() == 24 && s[0] == 'D' && s[1] == 'A' && s[4] == 'B' && s[5] == 'A' && s[10] == 'A' && s[23] == 'S' && s[22] == 'N' {
        2
    } else
    if s.len() == 24 && s[0] == 'D' && s[1] == 'A' && s[4] == 'B' && s[5] == 'A' && s[10] == 'I' && s[23] == 'S' && s[22] == 'N' {
        3
    } else
    if s.len() == 15 && s[0] == 'R' && s[1] == 'A' && s[4] == 'A' && s[5] == 'R' && s[10] == 'E' && s[14] == 'R' && s[13] == 'I' {
        4
    } else
    if s.len() == 16 && s[0] == 'R' && s[1] == 'A' && s[4] == 'A' && s[5] == 'R' && s[10] == 'E' && s[15] == 'L' && s[14] == 'L' {
        5
    } else
    if s.len() == 22 && s[0] == 'P' && s[1] == 'R' && s[4] == 'E' && s[5] == 'S' && s[10] == 'A' && s[21] == 'R' && s[20] == 'I' {
        6
    } else
    if s.len() == 20 && s[0] == 'S' && s[1] == 'A' && s[4] == '_' && s[5] == 'W' && s[10] == 'S' && s[19] == 'R' && s[18] == 'I' {
        7
    } else
    if s.len() == 24 && s[0] == 'S' && s[1] == 'A' && s[4] == '_' && s[5] == 'W' && s[10] == 'S' && s[23] == 'R' && s[22] == 'I' {
        8
    } else
    if s.len() == 20 && s[0] == 'W' && s[1] == 'E' && s[4] == 'A' && s[5] == 'T' && s[10] == 'L' && s[19] == 'H' && s[18] == 'T' {
        9
    } else
    if s.len() == 33 && s[0] == 'W' && s[1] == 'E' && s[4] == 'A' && s[5] == 'T' && s[10] == 'R' && s[32] == 'D' && s[31] == 'E' {
        10
    } else
    if s.len() == 22 && s[0] == 'H' && s[1] == 'O' && s[4] == 'Y' && s[5] == 'P' && s[10] == 'E' && s[21] == 'D' && s[20] == 'E' {
        11
    } else
    if s.len() == 19 && s[0] == 'H' && s[1] == 'O' && s[4] == 'Y' && s[5] == 'P' && s[10] == 'E' && s[18] == 'T' && s[17] == 'X' {
        12
    } else
    if s.len() == 14 && s[0] == 'W' && s[1] == 'O' && s[4] == 'E' && s[5] == 'R' && s[10] == 'B' && s[13] == 'D' && s[12] == 'E' {
        13
    } else
    if s.len() == 9 && s[0] == 'W' && s[1] == 'O' && s[4] == 'E' && s[5] == 'R' && s[8] == 'D' && s[7] == 'I' {
        14
    } else
    if s.len() == 14 && s[0] == 'B' && s[1] == 'R' && s[4] == 'G' && s[5] == 'E' && s[10] == 'S' && s[13] == 'N' && s[12] == 'O' {
        15
    } else
    if s.len() == 18 && s[0] == 'W' && s[1] == 'O' && s[4] == 'E' && s[5] == 'R' && s[10] == 'E' && s[17] == 'S' && s[16] == 'M' {
        16
    } else
    if s.len() == 33 && s[0] == 'W' && s[1] == 'O' && s[4] == 'E' && s[5] == 'R' && s[10] == 'C' && s[32] == 'S' && s[31] == 'D' {
        17
    } else
    if s.len() == 25 && s[0] == 'W' && s[1] == 'O' && s[4] == 'E' && s[5] == 'R' && s[10] == 'R' && s[24] == 'S' && s[23] == 'D' {
        18
    } else
    if s.len() == 24 && s[0] == 'W' && s[1] == 'O' && s[4] == 'E' && s[5] == 'R' && s[10] == 'R' && s[23] == 'S' && s[22] == 'D' {
        19
    } else
    if s.len() == 20 && s[0] == 'H' && s[1] == 'T' && s[4] == '_' && s[5] == 'T' && s[10] == 'U' && s[19] == 'S' && s[18] == 'D' {
        20
    } else
    if s.len() == 24 && s[0] == 'R' && s[1] == 'E' && s[4] == 'E' && s[5] == 'S' && s[10] == 'D' && s[23] == 'S' && s[22] == 'E' {
        21
    } else
    if s.len() == 12 && s[0] == 'H' && s[1] == 'E' && s[4] == 'T' && s[5] == 'H' && s[10] == 'T' && s[11] == 'H' && s[10] == 'T' {
        22
    } else
    if s.len() == 11 && s[0] == 'R' && s[1] == 'E' && s[4] == 'Y' && s[5] == 'Z' && s[10] == 'H' && s[10] == 'H' && s[9] == 'T' {
        23
    } else
    if s.len() == 15 && s[0] == 'W' && s[1] == 'E' && s[4] == 'A' && s[5] == 'T' && s[10] == '_' && s[14] == 'E' && s[13] == 'S' {
        24
    } else
    if s.len() == 15 && s[0] == 'M' && s[1] == 'A' && s[4] == 'M' && s[5] == 'E' && s[10] == 'B' && s[14] == 'S' && s[13] == 'E' {
        25
    } else
    if s.len() == 33 && s[0] == 'W' && s[1] == 'E' && s[4] == 'A' && s[5] == 'T' && s[10] == 'E' && s[32] == 'S' && s[31] == 'D' {
        26
    } else
    if s.len() == 22 && s[0] == 'W' && s[1] == 'H' && s[4] == 'E' && s[5] == 'L' && s[10] == 'J' && s[21] == 'D' && s[20] == 'N' {
        27
    } else
    if s.len() == 20 && s[0] == 'G' && s[1] == 'E' && s[4] == 'N' && s[5] == 'I' && s[10] == 'P' && s[19] == 'E' && s[18] == 'S' {
        28
    } else
    if s.len() == 12 && s[0] == 'G' && s[1] == 'E' && s[4] == 'N' && s[5] == 'I' && s[10] == 'E' && s[11] == 'L' && s[10] == 'E' {
        29
    } else
    if s.len() == 23 && s[0] == 'G' && s[1] == 'E' && s[4] == 'N' && s[5] == 'I' && s[10] == '_' && s[22] == 'S' && s[21] == 'E' {
        30
    } else
    if s.len() == 23 && s[0] == 'L' && s[1] == 'L' && s[4] == 'I' && s[5] == 'M' && s[10] == 'S' && s[22] == 'T' && s[21] == 'P' {
        31
    } else
    if s.len() == 23 && s[0] == 'L' && s[1] == 'L' && s[4] == 'V' && s[5] == 'O' && s[10] == 'S' && s[22] == 'T' && s[21] == 'P' {
        32
    } else
    if s.len() == 23 && s[0] == 'L' && s[1] == 'L' && s[4] == 'V' && s[5] == 'I' && s[10] == 'S' && s[22] == 'T' && s[21] == 'P' {
        33
    } else
    if s.len() == 20 && s[0] == 'T' && s[1] == 'E' && s[4] == 'E' && s[5] == 'N' && s[10] == 'S' && s[19] == 'T' && s[18] == 'N' {
        34
    } else
    if s.len() == 19 && s[0] == 'T' && s[1] == 'E' && s[4] == 'E' && s[5] == 'N' && s[10] == 'S' && s[18] == 'I' && s[17] == 'O' {
        35
    } else
    if s.len() == 25 && s[0] == 'T' && s[1] == 'E' && s[4] == 'E' && s[5] == 'N' && s[10] == 'S' && s[24] == 'S' && s[23] == 'R' {
        36
    } else
    if s.len() == 20 && s[0] == 'J' && s[1] == 'I' && s[4] == '_' && s[5] == 'R' && s[10] == 'R' && s[19] == 'T' && s[18] == 'N' {
        37
    } else
    if s.len() == 8 && s[0] == 'R' && s[1] == 'U' && s[4] == '_' && s[5] == 'L' && s[7] == 'G' && s[6] == 'O' {
        38
    } else
    if s.len() == 15 && s[0] == 'A' && s[1] == 'D' && s[4] == 'N' && s[5] == '_' && s[10] == '_' && s[14] == 'H' && s[13] == 'T' {
        39
    } else
    if s.len() == 22 && s[0] == 'A' && s[1] == 'D' && s[4] == 'N' && s[5] == '_' && s[10] == 'U' && s[21] == 'E' && s[20] == 'G' {
        40
    } else
    if s.len() == 18 && s[0] == 'A' && s[1] == 'D' && s[4] == 'N' && s[5] == '_' && s[10] == 'P' && s[17] == 'E' && s[16] == 'G' {
        41
    } else
    if s.len() == 12 && s[0] == 'W' && s[1] == 'E' && s[4] == 'A' && s[5] == 'T' && s[10] == 'E' && s[11] == 'N' && s[10] == 'E' {
        42
    } else
    if s.len() == 13 && s[0] == 'W' && s[1] == 'E' && s[4] == 'A' && s[5] == 'T' && s[10] == '_' && s[12] == 'D' && s[11] == 'I' {
        43
    } else
    if s.len() == 17 && s[0] == 'W' && s[1] == 'E' && s[4] == 'A' && s[5] == 'T' && s[10] == '_' && s[16] == 'T' && s[15] == 'E' {
        44
    } else
    if s.len() == 23 && s[0] == 'W' && s[1] == 'E' && s[4] == 'A' && s[5] == 'T' && s[10] == 'O' && s[22] == 'Y' && s[21] == 'E' {
        45
    } else
    if s.len() == 14 && s[0] == 'A' && s[1] == 'D' && s[4] == 'N' && s[5] == '_' && s[10] == '_' && s[13] == 'Y' && s[12] == 'E' {
        46
    } else
    if s.len() == 14 && s[0] == 'G' && s[1] == 'E' && s[4] == 'N' && s[5] == 'I' && s[10] == '_' && s[13] == 'Y' && s[12] == 'E' {
        47
    } else
    if s.len() == 14 && s[0] == 'O' && s[1] == 'P' && s[4] == 'A' && s[5] == 'I' && s[10] == '_' && s[13] == 'Y' && s[12] == 'E' {
        48
    } else
    if s.len() == 17 && s[0] == 'A' && s[1] == 'N' && s[4] == 'R' && s[5] == 'O' && s[10] == 'A' && s[16] == 'Y' && s[15] == 'E' {
        49
    } else
    if s.len() == 15 && s[0] == 'T' && s[1] == 'E' && s[4] == 'E' && s[5] == 'N' && s[10] == 'S' && s[14] == 'Y' && s[13] == 'E' {
        50
    } else
    if s.len() == 12 && s[0] == 'J' && s[1] == 'I' && s[4] == '_' && s[5] == 'A' && s[10] == 'E' && s[11] == 'Y' && s[10] == 'E' {
        51
    } else
    if s.len() == 20 && s[0] == 'W' && s[1] == 'E' && s[4] == 'A' && s[5] == 'T' && s[10] == 'I' && s[19] == 'S' && s[18] == 'D' {
        52
    } else {
        -1
    }
}

#[verifier::rlimit(100)]
proof fn lemma_key_rank(i: int)
    requires
        0 <= i < 53,
    ensures
        key_rank(report_key_at(i)) == i,
{
    reveal_strlit("APP_BIND_ADDR");
    reveal_strlit("DATABASE_URL");
    reveal_strlit("DATABASE_MAX_CONNECTIONS");
    reveal_strlit("DATABASE_MIN_CONNECTIONS");
    reveal_strlit("RAW_ARCHIVE_DIR");
    reveal_strlit("RAW_ARCHIVE_FULL");
    reveal_strlit("PROCESSED_ARTIFACT_DIR");
    reveal_strlit("SAGE_WIKI_SOURCE_DIR");
    reveal_strlit("SAGE_WIKI_SOURCE_LOG_DIR");
    reveal_strlit("WECHAT_CALLBACK_PATH");
    reveal_strlit("WECHAT_ENCRYPTED_CALLBACK_ENABLED");
    reveal_strlit("HONEYPOT_REPLY_ENABLED");
    reveal_strlit("HONEYPOT_REPLY_TEXT");
    reveal_strlit("WORKER_ENABLED");
    reveal_strlit("WORKER_ID");
    reveal_strlit("BRIDGE_VERSION");
    reveal_strlit("WORKER_INTERVAL_MS");
    reveal_strlit("WORKER_PROCESSING_TIMEOUT_SECONDS");
    reveal_strlit("WORKER_RETRY_BASE_SECONDS");
    reveal_strlit("WORKER_RETRY_MAX_SECONDS");
    reveal_strlit("HTTP_TIMEOUT_SECONDS");
    reveal_strlit("REQUEST_BODY_LIMIT_BYTES");
    reveal_strlit("HEALTHZ_PATH");
    reveal_strlit("READYZ_PATH");
    reveal_strlit("WECHAT_API_BASE");
    reveal_strlit("MAX_MEDIA_BYTES");
    reveal_strlit("WECHAT_TOKEN_REFRESH_SKEW_SECONDS");
    reveal_strlit("WHITELIST_JOIN_COMMAND");
    reveal_strlit("GEMINI_ENDPOINT_BASE");
    reveal_strlit("GEMINI_MODEL");
    reveal_strlit("GEMINI_MAX_INLINE_BYTES");
    reveal_strlit("LLM_IMAGE_SYSTEM_PROMPT");
    reveal_strlit("LLM_VOICE_SYSTEM_PROMPT");
    reveal_strlit("LLM_VIDEO_SYSTEM_PROMPT");
    reveal_strlit("TENCENT_LBS_ENDPOINT");
    reveal_strlit("TENCENT_LBS_GET_POI");
    reveal_strlit("TENCENT_LBS_RADIUS_METERS");
    reveal_strlit("JINA_READER_ENDPOINT");
    reveal_strlit("RUST_LOG");
    reveal_strlit("ADMIN_BASE_PATH");
    reveal_strlit("ADMIN_DEFAULT_PER_PAGE");
    reveal_strlit("ADMIN_MAX_PER_PAGE");
    reveal_strlit("WECHAT_TOKEN");
    reveal_strlit("WECHAT_APP_ID");
    reveal_strlit("WECHAT_APP_SECRET");
    reveal_strlit("WECHAT_ENCODING_AES_KEY");
    reveal_strlit("ADMIN_VIEW_KEY");
    reveal_strlit("GEMINI_API_KEY");
    reveal_strlit("OPENAI_API_KEY");
    reveal_strlit("ANTHROPIC_API_KEY");
    reveal_strlit("TENCENT_LBS_KEY");
    reveal_strlit("JINA_API_KEY");
    reveal_strlit("WECHAT_ADMIN_OPENIDS");
}

/// No key appears twice in the report.
pub proof fn lemma_report_keys_distinct()
    ensures
        report_keys().no_duplicates(),
{
    assert forall|i: int, j: int| 0 <= i < report_keys().len() && 0 <= j < report_keys().len() && i != j
        implies report_keys()[i] != report_keys()[j] by {
        lemma_key_rank(i);
        lemma_key_rank(j);
    }
}

/// The report lists every key once, in the order of `report_keys`; each
/// entry carries the source recorded for its key (else `default`), and an
/// entry is redacted exactly when its key is one of the secret keys.
pub proof fn lemma_report_keys_sources_and_secrets(app: AppConfig, secrets: EnvSecrets, sources: Seq<(Seq<char>, Seq<char>)>)
    ensures
        ({
            let r = report_spec(app, secrets, sources);
            &&& r.len() == report_keys().len()
            &&& forall|i: int| 0 <= i < r.len() ==> #[trigger] r[i].key == report_keys()[i]
            &&& report_keys().no_duplicates()
            &&& forall|i: int| 0 <= i < r.len() ==> #[trigger] r[i].source == source_of(sources, r[i].key)
            &&& forall|i: int| 0 <= i < r.len() ==> (#[trigger] r[i].secret <==> secret_keys().contains(r[i].key))
        }),
{
    lemma_report_keys_distinct();
    lemma_report_shape(app, secrets, sources);
    let r = report_spec(app, secrets, sources);
    assert forall|i: int| 0 <= i < r.len() implies (#[trigger] r[i].secret <==> secret_keys().contains(r[i].key)) by {
        if i >= 42 {
            assert(secret_keys()[i - 42] == r[i].key);
        }
        if secret_keys().contains(r[i].key) {
            let j = choose|j: int| 0 <= j < secret_keys().len() && secret_keys()[j] == r[i].key;
            assert(report_keys()[j + 42] == report_keys()[i]);
        }
    }
}

#[verifier::rlimit(100)]
proof fn lemma_report_shape(app: AppConfig, secrets: EnvSecrets, sources: Seq<(Seq<char>, Seq<char>)>)
    ensures
        ({
            let r = report_spec(app, secrets, sources);
            &&& r.len() == 53
            &&& forall|i: int| 0 <= i < r.len() ==> #[trigger] r[i].key == report_key_at(i)
            &&& forall|i: int| 0 <= i < r.len() ==> #[trigger] r[i].source == source_of(sources, r[i].key)
            &&& forall|i: int| 0 <= i < r.len() ==> (#[trigger] r[i].secret <==> i >= 42)
        }),
{
    let r = report_spec(app, secrets, sources);
    assert(r.map_values(|e: EntryView| e.key) =~= Seq::new(53, |i: int| report_key_at(i)));
    assert(r.map_values(|e: EntryView| e.secret) =~= Seq::new(53, |i: int| i >= 42));
    assert(r.map_values(|e: EntryView| e.source == source_of(sources, e.key)) =~= Seq::new(53, |i: int| true));
    assert forall|i: int| 0 <= i < r.len() implies #[trigger] r[i].key == report_key_at(i) by {
        assert(r.map_values(|e: EntryView| e.key)[i] == r[i].key);
    }
    assert forall|i: int| 0 <= i < r.len() implies #[trigger] r[i].source == source_of(sources, r[i].key) by {
        assert(r.map_values(|e: EntryView| e.source == source_of(sources, e.key))[i]);
    }
    assert forall|i: int| 0 <= i < r.len() implies (#[trigger] r[i].secret <==> i >= 42) by {
        assert(r.map_values(|e: EntryView| e.secret)[i] == r[i].secret);
    }
}

/// The command-line flag the `i`-th report line names.
pub open spec fn report_flag_at(i: int) -> Seq<char> {
    if i == 0 {
        "--bind-addr"@
    } else
    if i == 1 {
        "--database-url"@
    } else
    if i == 2 {
        "--database-max-connections"@
    } else
    if i == 3 {
        "--database-min-connections"@
    } else
    if i == 4 {
        "--raw-archive-dir"@
    } else
    if i == 5 {
        "--raw-archive-full"@
    } else
    if i == 6 {
        "--processed-artifact-dir"@
    } else
    if i == 7 {
        "--sage-wiki-source-dir"@
    } else
    if i == 8 {
        "--sage-wiki-source-log-dir"@
    } else
    if i == 9 {
        "--wechat-callback-path"@
    } else
    if i == 10 {
        "--wechat-encrypted-callback-enabled"@
    } else
    if i == 11 {
        "--honeypot-reply-enabled"@
    } else
    if i == 12 {
        "--honeypot-reply-text"@
    } else
    if i == 13 {
        "--worker-enabled"@
    } else
    if i == 14 {
        "--worker-id"@
    } else
    if i == 15 {
        "--bridge-version"@
    } else
    if i == 16 {
        "--worker-interval-ms"@
    } else
    if i == 17 {
        "--worker-processing-timeout-seconds"@
    } else
    if i == 18 {
        "--worker-retry-base-seconds"@
    } else
    if i == 19 {
        "--worker-retry-max-seconds"@
    } else
    if i == 20 {
        "--http-timeout-seconds"@
    } else
    if i == 21 {
        "--request-body-limit-bytes"@
    } else
    if i == 22 {
        "--healthz-path"@
    } else
    if i == 23 {
        "--readyz-path"@
    } else
    if i == 24 {
        "--wechat-api-base"@
    } else
    if i == 25 {
        "--max-media-bytes"@
    } else
    if i == 26 {
        "--wechat-token-refresh-skew-seconds"@
    } else
    if i == 27 {
        "--whitelist-join-command"@
    } else
    if i == 28 {
        "--gemini-endpoint-base"@
    } else
    if i == 29 {
        "--gemini-model"@
    } else
    if i == 30 {
        "--gemini-max-inline-bytes"@
    } else
    if i == 31 {
        "--llm-image-system-prompt"@
    } else
    if i == 32 {
        "--llm-voice-system-prompt"@
    } else
    if i == 33 {
        "--llm-video-system-prompt"@
    } else
    if i == 34 {
        "--tencent-lbs-endpoint"@
    } else
    if i == 35 {
        "--tencent-lbs-get-poi"@
    } else
    if i == 36 {
        "--tencent-lbs-radius-meters"@
    } else
    if i == 37 {
        "--jina-reader-endpoint"@
    } else
    if i == 38 {
        "--rust-log"@
    } else
    if i == 39 {
        "--admin-base-path"@
    } else
    if i == 40 {
        "--admin-default-per-page"@
    } else
    if i == 41 {
        "--admin-max-per-page"@
    } else
    if i == 42 {
        "--wechat-token"@
    } else
    if i == 43 {
        "--wechat-app-id"@
    } else
    if i == 44 {
        "--wechat-app-secret"@
    } else
    if i == 45 {
        "--wechat-encoding-aes-key"@
    } else
    if i == 46 {
        "--admin-view-key"@
    } else
    if i == 47 {
        "--gemini-api-key"@
    } else
    if i == 48 {
        "--openai-api-key"@
    } else
    if i == 49 {
        "--anthropic-api-key"@
    } else
    if i == 50 {
        "--tencent-lbs-key"@
    } else
    if i == 51 {
        "--jina-api-key"@
    } else {
        "--wechat-admin-openids"@
    }
}

/// Where the flag of the `i`-th report line stands in the flag table.
spec fn report_flag_pos(i: int) -> int {
    if i == 0 {
        0
    } else
    if i == 1 {
        1
    } else
    if i == 2 {
        2
    } else
    if i == 3 {
        3
    } else
    if i == 4 {
        4
    } else
    if i == 5 {
        5
    } else
    if i == 6 {
        6
    } else
    if i == 7 {
        7
    } else
    if i == 8 {
        8
    } else
    if i == 9 {
        9
    } else
    if i == 10 {
        10
    } else
    if i == 11 {
        11
    } else
    if i == 12 {
        12
    } else
    if i == 13 {
        13
    } else
    if i == 14 {
        14
    } else
    if i == 15 {
        15
    } else
    if i == 16 {
        16
    } else
    if i == 17 {
        17
    } else
    if i == 18 {
        18
    } else
    if i == 19 {
        19
    } else
    if i == 20 {
        20
    } else
    if i == 21 {
        21
    } else
    if i == 22 {
        22
    } else
    if i == 23 {
        23
    } else
    if i == 24 {
        24
    } else
    if i == 25 {
        25
    } else
    if i == 26 {
        26
    } else
    if i == 27 {
        27
    } else
    if i == 28 {
        28
    } else
    if i == 29 {
        29
    } else
    if i == 30 {
        30
    } else
    if i == 31 {
        31
    } else
    if i == 32 {
        32
    } else
    if i == 33 {
        33
    } else
    if i == 34 {
        34
    } else
    if i == 35 {
        35
    } else
    if i == 36 {
        36
    } else
    if i == 37 {
        37
    } else
    if i == 38 {
        52
    } else
    if i == 39 {
        45
    } else
    if i == 40 {
        53
    } else
    if i == 41 {
        54
    } else
    if i == 42 {
        42
    } else
    if i == 43 {
        38
    } else
    if i == 44 {
        40
    } else
    if i == 45 {
        43
    } else
    if i == 46 {
        44
    } else
    if i == 47 {
        46
    } else
    if i == 48 {
        47
    } else
    if i == 49 {
        48
    } else
    if i == 50 {
        49
    } else
    if i == 51 {
        50
    } else {
        51
    }
}

/// The value the `i`-th report line shows: the setting as text (booleans
/// as `true`/`false`, numbers in decimal, an absent option as nothing), or
/// for a secret its redaction.
pub open spec fn report_value_at(i: int, app: AppConfig, secrets: EnvSecrets) -> Seq<char> {
    if i == 0 {
        app.bind_addr@
    } else
    if i == 1 {
        app.database_url@
    } else
    if i == 2 {
        crate::text::dec_spec(app.database_max_connections as nat)
    } else
    if i == 3 {
        crate::text::dec_spec(app.database_min_connections as nat)
    } else
    if i == 4 {
        app.raw_archive_dir@
    } else
    if i == 5 {
        bool_text(app.raw_archive_full)
    } else
    if i == 6 {
        app.processed_artifact_dir@
    } else
    if i == 7 {
        app.source_dir@
    } else
    if i == 8 {
        app.source_log_dir@
    } else
    if i == 9 {
        app.callback_path@
    } else
    if i == 10 {
        bool_text(app.encrypted_callback_enabled)
    } else
    if i == 11 {
        bool_text(app.honeypot_reply_enabled)
    } else
    if i == 12 {
        app.honeypot_reply_text@
    } else
    if i == 13 {
        bool_text(app.worker_enabled)
    } else
    if i == 14 {
        app.worker_id@
    } else
    if i == 15 {
        app.bridge_version@
    } else
    if i == 16 {
        crate::text::dec_spec(app.worker_interval_ms as nat)
    } else
    if i == 17 {
        crate::text::dec_spec(app.worker_processing_timeout_secs as nat)
    } else
    if i == 18 {
        crate::text::dec_spec(app.worker_retry_base_secs as nat)
    } else
    if i == 19 {
        crate::text::dec_spec(app.worker_retry_max_secs as nat)
    } else
    if i == 20 {
        crate::text::dec_spec(app.http_timeout_secs as nat)
    } else
    if i == 21 {
        crate::text::dec_spec(app.request_body_limit_bytes as nat)
    } else
    if i == 22 {
        app.healthz_path@
    } else
    if i == 23 {
        app.readyz_path@
    } else
    if i == 24 {
        app.wechat_api_base@
    } else
    if i == 25 {
        crate::text::dec_spec(app.max_media_bytes as nat)
    } else
    if i == 26 {
        crate::text::dec_spec(app.wechat_token_refresh_skew_secs as nat)
    } else
    if i == 27 {
        match app.whitelist_join_command { Some(s) => s@, None => Seq::empty() }
    } else
    if i == 28 {
        app.gemini_endpoint_base@
    } else
    if i == 29 {
        app.gemini_model@
    } else
    if i == 30 {
        crate::text::dec_spec(app.gemini_max_inline_bytes as nat)
    } else
    if i == 31 {
        app.llm_image_system_prompt@
    } else
    if i == 32 {
        app.llm_voice_system_prompt@
    } else
    if i == 33 {
        app.llm_video_system_prompt@
    } else
    if i == 34 {
        app.tencent_lbs_endpoint@
    } else
    if i == 35 {
        bool_text(app.tencent_lbs_get_poi)
    } else
    if i == 36 {
        match app.tencent_lbs_radius_meters { Some(n) => crate::text::dec_spec(n as nat), None => Seq::empty() }
    } else
    if i == 37 {
        app.jina_reader_endpoint@
    } else
    if i == 38 {
        app.log_filter@
    } else
    if i == 39 {
        app.admin_base_path@
    } else
    if i == 40 {
        crate::text::dec_spec(app.admin_default_per_page as nat)
    } else
    if i == 41 {
        crate::text::dec_spec(app.admin_max_per_page as nat)
    } else
    if i == 42 {
        redacted(crate::config::settings::opt_str(secrets.wechat_token))
    } else
    if i == 43 {
        redacted(crate::config::settings::opt_str(secrets.wechat_app_id))
    } else
    if i == 44 {
        redacted(crate::config::settings::opt_str(secrets.wechat_app_secret))
    } else
    if i == 45 {
        redacted(crate::config::settings::opt_str(secrets.wechat_encoding_aes_key))
    } else
    if i == 46 {
        redacted(crate::config::settings::opt_str(secrets.admin_view_key))
    } else
    if i == 47 {
        redacted(crate::config::settings::opt_str(secrets.gemini_api_key))
    } else
    if i == 48 {
        redacted(crate::config::settings::opt_str(secrets.openai_api_key))
    } else
    if i == 49 {
        redacted(crate::config::settings::opt_str(secrets.anthropic_api_key))
    } else
    if i == 50 {
        redacted(crate::config::settings::opt_str(secrets.tencent_lbs_key))
    } else
    if i == 51 {
        redacted(crate::config::settings::opt_str(secrets.jina_api_key))
    } else {
        "<redacted:"@ + crate::text::dec_spec(secrets.admin_openids.len() as nat) + ">"@
    }
}

/// A redacted secret shows nothing, or only a count.
pub open spec fn shows_no_secret(v: Seq<char>) -> bool {
    v.len() == 0 || exists|n: nat| v == "<redacted:"@ + crate::text::dec_spec(n) + ">"@
}

proof fn lemma_redacted_hides(v: Option<Seq<char>>)
    ensures
        shows_no_secret(redacted(v)),
{
    if let Some(s) = v {
        if s.len() > 0 {
            let n = vstd::utf8::encode_utf8(s).len();
            assert(redacted(v) == "<redacted:"@ + crate::text::dec_spec(n) + ">"@);
        }
    }
}

proof fn lemma_report_flag_pos(i: int)
    requires
        0 <= i < 53,
    ensures
        0 <= report_flag_pos(i) < crate::config::tables::flag_specs().len(),
        crate::config::tables::flag_specs()[report_flag_pos(i)] == (report_flag_at(i), report_key_at(i)),
{
}

#[verifier::rlimit(100)]
proof fn lemma_report_flags_and_values_shape(app: AppConfig, secrets: EnvSecrets, sources: Seq<(Seq<char>, Seq<char>)>)
    ensures
        ({
            let r = report_spec(app, secrets, sources);
            &&& forall|i: int| 0 <= i < r.len() ==> #[trigger] r[i].flag == report_flag_at(i)
            &&& forall|i: int| 0 <= i < r.len() ==> #[trigger] r[i].value == report_value_at(i, app, secrets)
        }),
{
    let r = report_spec(app, secrets, sources);
    assert(r.map_values(|e: EntryView| e.flag) =~= Seq::new(53, |i: int| report_flag_at(i)));
    assert(r.map_values(|e: EntryView| e.value) =~= Seq::new(53, |i: int| report_value_at(i, app, secrets)));
    assert forall|i: int| 0 <= i < r.len() implies #[trigger] r[i].flag == report_flag_at(i) by {
        assert(r.map_values(|e: EntryView| e.flag)[i] == r[i].flag);
    }
    assert forall|i: int| 0 <= i < r.len() implies #[trigger] r[i].value == report_value_at(i, app, secrets) by {
        assert(r.map_values(|e: EntryView| e.value)[i] == r[i].value);
    }
}

/// Each report line names the command-line flag of its key, as the flag
/// table pairs them; shows the value it reports for that key
/// (`report_value_at`); and a secret line shows nothing of the secret but
/// its length in bytes (for the admin OpenIDs, their number).
pub proof fn lemma_report_flags_and_values(app: AppConfig, secrets: EnvSecrets, sources: Seq<(Seq<char>, Seq<char>)>)
    ensures
        ({
            let r = report_spec(app, secrets, sources);
            &&& forall|i: int| 0 <= i < r.len() ==> #[trigger] r[i].flag == report_flag_at(i)
                && crate::config::tables::flag_specs().contains((r[i].flag, r[i].key))
            &&& forall|i: int| 0 <= i < r.len() ==> #[trigger] r[i].value == report_value_at(i, app, secrets)
            &&& forall|i: int| 0 <= i < r.len() && #[trigger] r[i].secret ==> shows_no_secret(r[i].value)
        }),
{
    lemma_report_shape(app, secrets, sources);
    lemma_report_flags_and_values_shape(app, secrets, sources);
    let r = report_spec(app, secrets, sources);
    assert forall|i: int| 0 <= i < r.len() implies #[trigger] r[i].flag == report_flag_at(i)
        && crate::config::tables::flag_specs().contains((r[i].flag, r[i].key)) by {
        lemma_report_flag_pos(i);
        assert(crate::config::tables::flag_specs()[report_flag_pos(i)] == (r[i].flag, r[i].key));
    }
    assert forall|i: int| 0 <= i < r.len() && #[trigger] r[i].secret implies shows_no_secret(r[i].value) by {
        if i == 42 {
            lemma_redacted_hides(crate::config::settings::opt_str(secrets.wechat_token));
        } else if i == 43 {
            lemma_redacted_hides(crate::config::settings::opt_str(secrets.wechat_app_id));
        } else if i == 44 {
            lemma_redacted_hides(crate::config::settings::opt_str(secrets.wechat_app_secret));
        } else if i == 45 {
            lemma_redacted_hides(crate::config::settings::opt_str(secrets.wechat_encoding_aes_key));
        } else if i == 46 {
            lemma_redacted_hides(crate::config::settings::opt_str(secrets.admin_view_key));
        } else if i == 47 {
            lemma_redacted_hides(crate::config::settings::opt_str(secrets.gemini_api_key));
        } else if i == 48 {
            lemma_redacted_hides(crate::config::settings::opt_str(secrets.openai_api_key));
        } else if i == 49 {
            lemma_redacted_hides(crate::config::settings::opt_str(secrets.anthropic_api_key));
        } else if i == 50 {
            lemma_redacted_hides(crate::config::settings::opt_str(secrets.tencent_lbs_key));
        } else if i == 51 {
            lemma_redacted_hides(crate::config::settings::opt_str(secrets.jina_api_key));
        } else if i == 52 {
            let m = secrets.admin_openids.len() as nat;
            assert(r[i].value == "<redacted:"@ + crate::text::dec_spec(m) + ">"@);
        }
    }
}

/// How a report line is printed:
/// `  KEY = VALUE  # flag: FLAG, source: SOURCE`, with `, redacted` after a
/// secret.
pub open spec fn entry_line_spec(e: EntryView) -> Seq<char> {
    "  "@ + e.key + " = "@ + e.value + "  # flag: "@ + e.flag + ", source: "@ + e.source
        + if e.secret { ", redacted"@ } else { ""@ }
}

/// The printed form of a report line (see `entry_line_spec`).
pub fn config_entry_line(entry: &ConfigReportEntry) -> (r: String)
    ensures
        r@ == entry_line_spec(entry@),
{
    let mut out = string_from("  ");
    push_str(&mut out, entry.key.as_str());
    push_str(&mut out, " = ");
    push_str(&mut out, entry.value.as_str());
    push_str(&mut out, "  # flag: ");
    push_str(&mut out, entry.flag.as_str());
    push_str(&mut out, ", source: ");
    push_str(&mut out, entry.source.as_str());
    if entry.secret {
        push_str(&mut out, ", redacted");
    }
    proof {
        reveal_strlit("");
    }
    out
}

/// The printed forms of report lines, in order.
pub open spec fn entry_lines_spec(es: Seq<EntryView>) -> Seq<Seq<char>> {
    es.map_values(|e: EntryView| entry_line_spec(e))
}

/// The printed form of every report line, in order.
pub fn config_entry_lines(entries: &Vec<ConfigReportEntry>) -> (r: Vec<String>)
    ensures
        crate::config::app::strings_view(r@) == entry_lines_spec(entries_view(entries@)),
{
    let mut out: Vec<String> = Vec::new();
    let mut i: usize = 0;
    while i < entries.len()
        invariant
            i <= entries@.len(),
            out@.len() == i,
            forall|j: int| 0 <= j < i ==> #[trigger] out@[j]@ == entry_line_spec(entries@[j]@),
        decreases entries@.len() - i,
    {
        let line = config_entry_line(&entries[i]);
        out.push(line);
        i = i + 1;
    }
    assert(crate::config::app::strings_view(out@) =~= entry_lines_spec(entries_view(entries@)));
    out
}

} // verus!
