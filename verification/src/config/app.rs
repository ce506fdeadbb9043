//! The application settings and the secrets, read from resolved pairs.
use vstd::prelude::*;

use crate::config::settings::{
    first_lookup, get_bool, get_optional_from_lookup, get_optional_string, get_optional_u32,
    get_string, get_u32, get_u64, get_usize, opt_str, pairs_view,
};
use crate::error::{BridgeError, ErrorKind, ErrorView};
use crate::text::{chars_of, string_from, string_of_range, trim};

verus! {

/// The settings of the bridge. Durations are whole milliseconds or seconds,
/// as the field names say; directories are paths as text.
#[derive(Debug, Clone, PartialEq, Eq)]
pub struct AppConfig {
    pub bind_addr: String,
    pub database_url: String,
    pub database_max_connections: u32,
    pub database_min_connections: u32,
    pub raw_archive_dir: String,
    pub raw_archive_full: bool,
    pub processed_artifact_dir: String,
    pub source_dir: String,
    pub source_log_dir: String,
    pub callback_path: String,
    pub encrypted_callback_enabled: bool,
    pub honeypot_reply_enabled: bool,
    pub honeypot_reply_text: String,
    pub worker_enabled: bool,
    pub worker_id: String,
    pub bridge_version: String,
    pub worker_interval_ms: u64,
    pub worker_processing_timeout_secs: u64,
    pub worker_retry_base_secs: u64,
    pub worker_retry_max_secs: u64,
    pub http_timeout_secs: u64,
    pub request_body_limit_bytes: usize,
    pub healthz_path: String,
    pub readyz_path: String,
    pub wechat_api_base: String,
    pub max_media_bytes: u64,
    pub wechat_token_refresh_skew_secs: u64,
    pub whitelist_join_command: Option<String>,
    pub gemini_endpoint_base: String,
    pub gemini_model: String,
    pub gemini_max_inline_bytes: u64,
    pub llm_image_system_prompt: String,
    pub llm_voice_system_prompt: String,
    pub llm_video_system_prompt: String,
    pub tencent_lbs_endpoint: String,
    pub tencent_lbs_get_poi: bool,
    pub tencent_lbs_radius_meters: Option<u32>,
    pub jina_reader_endpoint: String,
    pub log_filter: String,
    pub admin_base_path: String,
    pub admin_default_per_page: u32,
    pub admin_max_per_page: u32,
}

/// The first setting, in field order, whose value does not read as its
/// type, with its error.
pub open spec fn config_error_spec(p: Seq<(Seq<char>, Seq<char>)>) -> Option<ErrorView> {
    if crate::config::settings::unsigned_setting(p, "DATABASE_MAX_CONNECTIONS"@, 4, u32::MAX as nat) is Err {
        Some(crate::config::settings::unsigned_setting(p, "DATABASE_MAX_CONNECTIONS"@, 4, u32::MAX as nat)->Err_0)
    } else if crate::config::settings::unsigned_setting(p, "DATABASE_MIN_CONNECTIONS"@, 1, u32::MAX as nat) is Err {
        Some(crate::config::settings::unsigned_setting(p, "DATABASE_MIN_CONNECTIONS"@, 1, u32::MAX as nat)->Err_0)
    } else if crate::config::settings::bool_setting(p, "RAW_ARCHIVE_FULL"@, true) is Err {
        Some(crate::config::settings::bool_setting(p, "RAW_ARCHIVE_FULL"@, true)->Err_0)
    } else if crate::config::settings::bool_setting(p, "WECHAT_ENCRYPTED_CALLBACK_ENABLED"@, false) is Err {
        Some(crate::config::settings::bool_setting(p, "WECHAT_ENCRYPTED_CALLBACK_ENABLED"@, false)->Err_0)
    } else if crate::config::settings::bool_setting(p, "HONEYPOT_REPLY_ENABLED"@, false) is Err {
        Some(crate::config::settings::bool_setting(p, "HONEYPOT_REPLY_ENABLED"@, false)->Err_0)
    } else if crate::config::settings::bool_setting(p, "WORKER_ENABLED"@, true) is Err {
        Some(crate::config::settings::bool_setting(p, "WORKER_ENABLED"@, true)->Err_0)
    } else if crate::config::settings::unsigned_setting(p, "WORKER_INTERVAL_MS"@, 1000, u64::MAX as nat) is Err {
        Some(crate::config::settings::unsigned_setting(p, "WORKER_INTERVAL_MS"@, 1000, u64::MAX as nat)->Err_0)
    } else if crate::config::settings::unsigned_setting(p, "WORKER_PROCESSING_TIMEOUT_SECONDS"@, 900, u64::MAX as nat) is Err {
        Some(crate::config::settings::unsigned_setting(p, "WORKER_PROCESSING_TIMEOUT_SECONDS"@, 900, u64::MAX as nat)->Err_0)
    } else if crate::config::settings::unsigned_setting(p, "WORKER_RETRY_BASE_SECONDS"@, 10, u64::MAX as nat) is Err {
        Some(crate::config::settings::unsigned_setting(p, "WORKER_RETRY_BASE_SECONDS"@, 10, u64::MAX as nat)->Err_0)
    } else if crate::config::settings::unsigned_setting(p, "WORKER_RETRY_MAX_SECONDS"@, 300, u64::MAX as nat) is Err {
        Some(crate::config::settings::unsigned_setting(p, "WORKER_RETRY_MAX_SECONDS"@, 300, u64::MAX as nat)->Err_0)
    } else if crate::config::settings::unsigned_setting(p, "HTTP_TIMEOUT_SECONDS"@, 30, u64::MAX as nat) is Err {
        Some(crate::config::settings::unsigned_setting(p, "HTTP_TIMEOUT_SECONDS"@, 30, u64::MAX as nat)->Err_0)
    } else if crate::config::settings::unsigned_setting(p, "REQUEST_BODY_LIMIT_BYTES"@, 2097152, usize::MAX as nat) is Err {
        Some(crate::config::settings::unsigned_setting(p, "REQUEST_BODY_LIMIT_BYTES"@, 2097152, usize::MAX as nat)->Err_0)
    } else if crate::config::settings::unsigned_setting(p, "MAX_MEDIA_BYTES"@, 20971520, u64::MAX as nat) is Err {
        Some(crate::config::settings::unsigned_setting(p, "MAX_MEDIA_BYTES"@, 20971520, u64::MAX as nat)->Err_0)
    } else if crate::config::settings::unsigned_setting(p, "WECHAT_TOKEN_REFRESH_SKEW_SECONDS"@, 300, u64::MAX as nat) is Err {
        Some(crate::config::settings::unsigned_setting(p, "WECHAT_TOKEN_REFRESH_SKEW_SECONDS"@, 300, u64::MAX as nat)->Err_0)
    } else if crate::config::settings::unsigned_setting(p, "GEMINI_MAX_INLINE_BYTES"@, 18874368, u64::MAX as nat) is Err {
        Some(crate::config::settings::unsigned_setting(p, "GEMINI_MAX_INLINE_BYTES"@, 18874368, u64::MAX as nat)->Err_0)
    } else if crate::config::settings::bool_setting(p, "TENCENT_LBS_GET_POI"@, true) is Err {
        Some(crate::config::settings::bool_setting(p, "TENCENT_LBS_GET_POI"@, true)->Err_0)
    } else if crate::config::settings::optional_u32_setting(p, "TENCENT_LBS_RADIUS_METERS"@) is Err {
        Some(crate::config::settings::optional_u32_setting(p, "TENCENT_LBS_RADIUS_METERS"@)->Err_0)
    } else if crate::config::settings::unsigned_setting(p, "ADMIN_DEFAULT_PER_PAGE"@, 20, u32::MAX as nat) is Err {
        Some(crate::config::settings::unsigned_setting(p, "ADMIN_DEFAULT_PER_PAGE"@, 20, u32::MAX as nat)->Err_0)
    } else if crate::config::settings::unsigned_setting(p, "ADMIN_MAX_PER_PAGE"@, 100, u32::MAX as nat) is Err {
        Some(crate::config::settings::unsigned_setting(p, "ADMIN_MAX_PER_PAGE"@, 100, u32::MAX as nat)->Err_0)
    } else {
        None
    }
}

/// The settings read from `p`: each field is its key's value, or its
/// default when the key is missing or blank.
pub open spec fn app_config_matches(c: AppConfig, p: Seq<(Seq<char>, Seq<char>)>) -> bool {
    &&& c.bind_addr@ == crate::config::settings::string_setting(p, "APP_BIND_ADDR"@, "127.0.0.1:8080"@)
    &&& c.database_url@ == crate::config::settings::string_setting(p, "DATABASE_URL"@, "sqlite://data/bridge.sqlite3"@)
    &&& crate::config::settings::unsigned_setting(p, "DATABASE_MAX_CONNECTIONS"@, 4, u32::MAX as nat) == Ok::<nat, ErrorView>(c.database_max_connections as nat)
    &&& crate::config::settings::unsigned_setting(p, "DATABASE_MIN_CONNECTIONS"@, 1, u32::MAX as nat) == Ok::<nat, ErrorView>(c.database_min_connections as nat)
    &&& c.raw_archive_dir@ == crate::config::settings::string_setting(p, "RAW_ARCHIVE_DIR"@, "data/raw"@)
    &&& crate::config::settings::bool_setting(p, "RAW_ARCHIVE_FULL"@, true) == Ok::<bool, ErrorView>(c.raw_archive_full)
    &&& c.processed_artifact_dir@ == crate::config::settings::string_setting(p, "PROCESSED_ARTIFACT_DIR"@, "data/processed"@)
    &&& c.source_dir@ == crate::config::settings::string_setting(p, "SAGE_WIKI_SOURCE_DIR"@, "source"@)
    &&& c.source_log_dir@ == crate::config::settings::string_setting(p, "SAGE_WIKI_SOURCE_LOG_DIR"@, "data/source-log"@)
    &&& c.callback_path@ == crate::config::settings::string_setting(p, "WECHAT_CALLBACK_PATH"@, "/wechat/callback"@)
    &&& crate::config::settings::bool_setting(p, "WECHAT_ENCRYPTED_CALLBACK_ENABLED"@, false) == Ok::<bool, ErrorView>(c.encrypted_callback_enabled)
    &&& crate::config::settings::bool_setting(p, "HONEYPOT_REPLY_ENABLED"@, false) == Ok::<bool, ErrorView>(c.honeypot_reply_enabled)
    &&& c.honeypot_reply_text@ == crate::config::settings::string_setting(p, "HONEYPOT_REPLY_TEXT"@, "Message received."@)
    &&& crate::config::settings::bool_setting(p, "WORKER_ENABLED"@, true) == Ok::<bool, ErrorView>(c.worker_enabled)
    &&& c.worker_id@ == crate::config::settings::string_setting(p, "WORKER_ID"@, "worker-main"@)
    &&& c.bridge_version@ == crate::config::settings::string_setting(p, "BRIDGE_VERSION"@, "0.4.1"@)
    &&& crate::config::settings::unsigned_setting(p, "WORKER_INTERVAL_MS"@, 1000, u64::MAX as nat) == Ok::<nat, ErrorView>(c.worker_interval_ms as nat)
    &&& crate::config::settings::unsigned_setting(p, "WORKER_PROCESSING_TIMEOUT_SECONDS"@, 900, u64::MAX as nat) == Ok::<nat, ErrorView>(c.worker_processing_timeout_secs as nat)
    &&& crate::config::settings::unsigned_setting(p, "WORKER_RETRY_BASE_SECONDS"@, 10, u64::MAX as nat) == Ok::<nat, ErrorView>(c.worker_retry_base_secs as nat)
    &&& crate::config::settings::unsigned_setting(p, "WORKER_RETRY_MAX_SECONDS"@, 300, u64::MAX as nat) == Ok::<nat, ErrorView>(c.worker_retry_max_secs as nat)
    &&& crate::config::settings::unsigned_setting(p, "HTTP_TIMEOUT_SECONDS"@, 30, u64::MAX as nat) == Ok::<nat, ErrorView>(c.http_timeout_secs as nat)
    &&& crate::config::settings::unsigned_setting(p, "REQUEST_BODY_LIMIT_BYTES"@, 2097152, usize::MAX as nat) == Ok::<nat, ErrorView>(c.request_body_limit_bytes as nat)
    &&& c.healthz_path@ == crate::config::settings::string_setting(p, "HEALTHZ_PATH"@, "/healthz"@)
    &&& c.readyz_path@ == crate::config::settings::string_setting(p, "READYZ_PATH"@, "/readyz"@)
    &&& c.wechat_api_base@ == crate::config::settings::string_setting(p, "WECHAT_API_BASE"@, "https://api.weixin.qq.com"@)
    &&& crate::config::settings::unsigned_setting(p, "MAX_MEDIA_BYTES"@, 20971520, u64::MAX as nat) == Ok::<nat, ErrorView>(c.max_media_bytes as nat)
    &&& crate::config::settings::unsigned_setting(p, "WECHAT_TOKEN_REFRESH_SKEW_SECONDS"@, 300, u64::MAX as nat) == Ok::<nat, ErrorView>(c.wechat_token_refresh_skew_secs as nat)
    &&& opt_str(c.whitelist_join_command) == crate::config::settings::optional_string_setting(p, "WHITELIST_JOIN_COMMAND"@)
    &&& c.gemini_endpoint_base@ == crate::config::settings::string_setting(p, "GEMINI_ENDPOINT_BASE"@, "https://generativelanguage.googleapis.com"@)
    &&& c.gemini_model@ == crate::config::settings::string_setting(p, "GEMINI_MODEL"@, "gemini-2.5-flash"@)
    &&& crate::config::settings::unsigned_setting(p, "GEMINI_MAX_INLINE_BYTES"@, 18874368, u64::MAX as nat) == Ok::<nat, ErrorView>(c.gemini_max_inline_bytes as nat)
    &&& c.llm_image_system_prompt@ == crate::config::settings::string_setting(p, "LLM_IMAGE_SYSTEM_PROMPT"@, "Describe this image for a personal knowledge base."@)
    &&& c.llm_voice_system_prompt@ == crate::config::settings::string_setting(p, "LLM_VOICE_SYSTEM_PROMPT"@, "Transcribe and summarize this voice message."@)
    &&& c.llm_video_system_prompt@ == crate::config::settings::string_setting(p, "LLM_VIDEO_SYSTEM_PROMPT"@, "Summarize this video for a personal knowledge base."@)
    &&& c.tencent_lbs_endpoint@ == crate::config::settings::string_setting(p, "TENCENT_LBS_ENDPOINT"@, "https://apis.map.qq.com/ws/geocoder/v1/"@)
    &&& crate::config::settings::bool_setting(p, "TENCENT_LBS_GET_POI"@, true) == Ok::<bool, ErrorView>(c.tencent_lbs_get_poi)
    &&& crate::config::settings::optional_u32_setting(p, "TENCENT_LBS_RADIUS_METERS"@) == Ok::<Option<nat>, ErrorView>(match c.tencent_lbs_radius_meters { Some(v) => Some(v as nat), None => None })
    &&& c.jina_reader_endpoint@ == crate::config::settings::string_setting(p, "JINA_READER_ENDPOINT"@, "https://r.jina.ai"@)
    &&& c.log_filter@ == crate::config::settings::string_setting(p, "RUST_LOG"@, "info,sage_wiki_bridge=debug"@)
    &&& c.admin_base_path@ == crate::config::settings::string_setting(p, "ADMIN_BASE_PATH"@, "/admin"@)
    &&& crate::config::settings::unsigned_setting(p, "ADMIN_DEFAULT_PER_PAGE"@, 20, u32::MAX as nat) == Ok::<nat, ErrorView>(c.admin_default_per_page as nat)
    &&& crate::config::settings::unsigned_setting(p, "ADMIN_MAX_PER_PAGE"@, 100, u32::MAX as nat) == Ok::<nat, ErrorView>(c.admin_max_per_page as nat)
}

impl AppConfig {
    /// Reads the settings from resolved pairs, failing on the first value
    /// that does not read as its setting's type.
    #[verifier::rlimit(40)]
    pub fn from_lookup(pairs: &Vec<(String, String)>) -> (r: Result<AppConfig, BridgeError>)
        ensures
            match r {
                Ok(c) => config_error_spec(pairs_view(pairs@)) is None && app_config_matches(c, pairs_view(pairs@)),
                Err(e) => config_error_spec(pairs_view(pairs@)) == Some(e@),
            },
    {
        let bind_addr = get_string(pairs, "APP_BIND_ADDR", "127.0.0.1:8080");
        let database_url = get_string(pairs, "DATABASE_URL", "sqlite://data/bridge.sqlite3");
        let database_max_connections = get_u32(pairs, "DATABASE_MAX_CONNECTIONS", 4)?;
        let database_min_connections = get_u32(pairs, "DATABASE_MIN_CONNECTIONS", 1)?;
        let raw_archive_dir = get_string(pairs, "RAW_ARCHIVE_DIR", "data/raw");
        let raw_archive_full = get_bool(pairs, "RAW_ARCHIVE_FULL", true)?;
        let processed_artifact_dir = get_string(pairs, "PROCESSED_ARTIFACT_DIR", "data/processed");
        let source_dir = get_string(pairs, "SAGE_WIKI_SOURCE_DIR", "source");
        let source_log_dir = get_string(pairs, "SAGE_WIKI_SOURCE_LOG_DIR", "data/source-log");
        let callback_path = get_string(pairs, "WECHAT_CALLBACK_PATH", "/wechat/callback");
        let encrypted_callback_enabled = get_bool(pairs, "WECHAT_ENCRYPTED_CALLBACK_ENABLED", false)?;
        let honeypot_reply_enabled = get_bool(pairs, "HONEYPOT_REPLY_ENABLED", false)?;
        let honeypot_reply_text = get_string(pairs, "HONEYPOT_REPLY_TEXT", "Message received.");
        let worker_enabled = get_bool(pairs, "WORKER_ENABLED", true)?;
        let worker_id = get_string(pairs, "WORKER_ID", "worker-main");
        let bridge_version = get_string(pairs, "BRIDGE_VERSION", "0.4.1");
        let worker_interval_ms = get_u64(pairs, "WORKER_INTERVAL_MS", 1000)?;
        let worker_processing_timeout_secs = get_u64(pairs, "WORKER_PROCESSING_TIMEOUT_SECONDS", 900)?;
        let worker_retry_base_secs = get_u64(pairs, "WORKER_RETRY_BASE_SECONDS", 10)?;
        let worker_retry_max_secs = get_u64(pairs, "WORKER_RETRY_MAX_SECONDS", 300)?;
        let http_timeout_secs = get_u64(pairs, "HTTP_TIMEOUT_SECONDS", 30)?;
        let request_body_limit_bytes = get_usize(pairs, "REQUEST_BODY_LIMIT_BYTES", 2097152)?;
        let healthz_path = get_string(pairs, "HEALTHZ_PATH", "/healthz");
        let readyz_path = get_string(pairs, "READYZ_PATH", "/readyz");
        let wechat_api_base = get_string(pairs, "WECHAT_API_BASE", "https://api.weixin.qq.com");
        let max_media_bytes = get_u64(pairs, "MAX_MEDIA_BYTES", 20971520)?;
        let wechat_token_refresh_skew_secs = get_u64(pairs, "WECHAT_TOKEN_REFRESH_SKEW_SECONDS", 300)?;
        let whitelist_join_command = get_optional_string(pairs, "WHITELIST_JOIN_COMMAND");
        let gemini_endpoint_base = get_string(pairs, "GEMINI_ENDPOINT_BASE", "https://generativelanguage.googleapis.com");
        let gemini_model = get_string(pairs, "GEMINI_MODEL", "gemini-2.5-flash");
        let gemini_max_inline_bytes = get_u64(pairs, "GEMINI_MAX_INLINE_BYTES", 18874368)?;
        let llm_image_system_prompt = get_string(pairs, "LLM_IMAGE_SYSTEM_PROMPT", "Describe this image for a personal knowledge base.");
        let llm_voice_system_prompt = get_string(pairs, "LLM_VOICE_SYSTEM_PROMPT", "Transcribe and summarize this voice message.");
        let llm_video_system_prompt = get_string(pairs, "LLM_VIDEO_SYSTEM_PROMPT", "Summarize this video for a personal knowledge base.");
        let tencent_lbs_endpoint = get_string(pairs, "TENCENT_LBS_ENDPOINT", "https://apis.map.qq.com/ws/geocoder/v1/");
        let tencent_lbs_get_poi = get_bool(pairs, "TENCENT_LBS_GET_POI", true)?;
        let tencent_lbs_radius_meters = get_optional_u32(pairs, "TENCENT_LBS_RADIUS_METERS")?;
        let jina_reader_endpoint = get_string(pairs, "JINA_READER_ENDPOINT", "https://r.jina.ai");
        let log_filter = get_string(pairs, "RUST_LOG", "info,sage_wiki_bridge=debug");
        let admin_base_path = get_string(pairs, "ADMIN_BASE_PATH", "/admin");
        let admin_default_per_page = get_u32(pairs, "ADMIN_DEFAULT_PER_PAGE", 20)?;
        let admin_max_per_page = get_u32(pairs, "ADMIN_MAX_PER_PAGE", 100)?;
        Ok(AppConfig {
            bind_addr,
            database_url,
            database_max_connections,
            database_min_connections,
            raw_archive_dir,
            raw_archive_full,
            processed_artifact_dir,
            source_dir,
            source_log_dir,
            callback_path,
            encrypted_callback_enabled,
            honeypot_reply_enabled,
            honeypot_reply_text,
            worker_enabled,
            worker_id,
            bridge_version,
            worker_interval_ms,
            worker_processing_timeout_secs,
            worker_retry_base_secs,
            worker_retry_max_secs,
            http_timeout_secs,
            request_body_limit_bytes,
            healthz_path,
            readyz_path,
            wechat_api_base,
            max_media_bytes,
            wechat_token_refresh_skew_secs,
            whitelist_join_command,
            gemini_endpoint_base,
            gemini_model,
            gemini_max_inline_bytes,
            llm_image_system_prompt,
            llm_voice_system_prompt,
            llm_video_system_prompt,
            tencent_lbs_endpoint,
            tencent_lbs_get_poi,
            tencent_lbs_radius_meters,
            jina_reader_endpoint,
            log_filter,
            admin_base_path,
            admin_default_per_page,
            admin_max_per_page,
        })
    }
}
/// The characters that separate the items of a list setting.
pub open spec fn is_list_sep(c: char) -> bool {
    c == ',' || c == '\n' || c == ';'
}

/// Adds a finished segment to the items, trimmed, unless it is blank.
pub open spec fn push_item(items: Seq<Seq<char>>, segment: Seq<char>) -> Seq<Seq<char>> {
    if crate::text::trim_spec(segment).len() == 0 {
        items
    } else {
        items.push(crate::text::trim_spec(segment))
    }
}

/// The items finished so far and the segment under way, after reading `s`.
pub open spec fn scan_items(s: Seq<char>) -> (Seq<Seq<char>>, Seq<char>)
    decreases s.len(),
{
    if s.len() == 0 {
        (Seq::empty(), Seq::empty())
    } else {
        let (items, segment) = scan_items(s.drop_last());
        if is_list_sep(s.last()) {
            (push_item(items, segment), Seq::empty())
        } else {
            (items, segment.push(s.last()))
        }
    }
}

/// The items of a list setting: the text split at `,`, newline and `;`,
/// each piece trimmed, blank pieces dropped.
pub open spec fn list_items_spec(s: Seq<char>) -> Seq<Seq<char>> {
    push_item(scan_items(s).0, scan_items(s).1)
}

/// The views of a vector of strings.
pub open spec fn strings_view(v: Seq<String>) -> Seq<Seq<char>> {
    v.map_values(|s: String| s@)
}

fn push_trimmed(items: &mut Vec<String>, segment: &Vec<char>)
    ensures
        strings_view(final(items)@) == push_item(strings_view(old(items)@), segment@),
{
    let s = string_of_range(segment, 0, segment.len());
    assert(segment@.subrange(0, segment@.len() as int) == segment@);
    let t = trim(s.as_str());
    if !t.as_str().is_empty() {
        let ghost before = items@;
        items.push(t);
        assert(strings_view(items@) == strings_view(before).push(t@));
    }
}

/// Splits a list setting into its items (see `list_items_spec`); nothing
/// when the setting is absent.
pub fn parse_list_env(value: Option<&str>) -> (r: Vec<String>)
    ensures
        strings_view(r@) == match value {
            Some(s) => list_items_spec(s@),
            None => list_items_spec(Seq::empty()),
        },
{
    let text: &str = match value {
        Some(s) => s,
        None => "",
    };
    let v = chars_of(text);
    let mut items: Vec<String> = Vec::new();
    let mut segment: Vec<char> = Vec::new();
    let mut i: usize = 0;
    assert(v@.take(0) == Seq::<char>::empty());
    while i < v.len()
        invariant
            i <= v.len(),
            (strings_view(items@), segment@) == scan_items(v@.take(i as int)),
        decreases v.len() - i,
    {
        assert(v@.take(i + 1).drop_last() == v@.take(i as int));
        let c = v[i];
        if c == ',' || c == '\n' || c == ';' {
            push_trimmed(&mut items, &segment);
            segment = Vec::new();
        } else {
            segment.push(c);
        }
        i += 1;
    }
    assert(v@.take(v.len() as int) == v@);
    push_trimmed(&mut items, &segment);
    proof {
        if value is None {
            reveal_strlit("");
            assert(text@ == Seq::<char>::empty());
        }
    }
    items
}

/// The secrets of the bridge.
#[derive(Debug, Clone, PartialEq, Eq)]
pub struct EnvSecrets {
    pub wechat_app_id: Option<String>,
    pub wechat_app_secret: Option<String>,
    pub wechat_token: Option<String>,
    pub wechat_encoding_aes_key: Option<String>,
    pub admin_view_key: Option<String>,
    pub gemini_api_key: Option<String>,
    pub openai_api_key: Option<String>,
    pub anthropic_api_key: Option<String>,
    pub tencent_lbs_key: Option<String>,
    pub jina_api_key: Option<String>,
    pub admin_openids: Vec<String>,
}

/// The secrets read from `p`: each the present value of its key; the app id
/// and secret also under their spellings without underscore.
pub open spec fn secrets_match(s: EnvSecrets, p: Seq<(Seq<char>, Seq<char>)>) -> bool {
    &&& opt_str(s.wechat_app_id) == crate::config::settings::first_lookup_spec(
        p,
        "WECHAT_APP_ID"@,
        "WECHAT_APPID"@,
    )
    &&& opt_str(s.wechat_app_secret) == crate::config::settings::first_lookup_spec(
        p,
        "WECHAT_APP_SECRET"@,
        "WECHAT_APPSECRET"@,
    )
    &&& opt_str(s.wechat_token) == crate::config::settings::present_spec(p, "WECHAT_TOKEN"@)
    &&& opt_str(s.wechat_encoding_aes_key) == crate::config::settings::present_spec(
        p,
        "WECHAT_ENCODING_AES_KEY"@,
    )
    &&& opt_str(s.admin_view_key) == crate::config::settings::present_spec(p, "ADMIN_VIEW_KEY"@)
    &&& opt_str(s.gemini_api_key) == crate::config::settings::present_spec(p, "GEMINI_API_KEY"@)
    &&& opt_str(s.openai_api_key) == crate::config::settings::present_spec(p, "OPENAI_API_KEY"@)
    &&& opt_str(s.anthropic_api_key) == crate::config::settings::present_spec(
        p,
        "ANTHROPIC_API_KEY"@,
    )
    &&& opt_str(s.tencent_lbs_key) == crate::config::settings::present_spec(p, "TENCENT_LBS_KEY"@)
    &&& opt_str(s.jina_api_key) == crate::config::settings::present_spec(p, "JINA_API_KEY"@)
    &&& strings_view(s.admin_openids@) == list_items_spec(
        match crate::config::settings::present_spec(p, "WECHAT_ADMIN_OPENIDS"@) {
            Some(v) => v,
            None => Seq::empty(),
        },
    )
}

impl EnvSecrets {
    /// Reads the secrets from resolved pairs.
    pub fn from_lookup(pairs: &Vec<(String, String)>) -> (r: EnvSecrets)
        ensures
            secrets_match(r, pairs_view(pairs@)),
    {
        let openids = get_optional_from_lookup(pairs, "WECHAT_ADMIN_OPENIDS");
        let admin_openids = match &openids {
            Some(v) => parse_list_env(Some(v.as_str())),
            None => parse_list_env(None),
        };
        EnvSecrets {
            wechat_app_id: first_lookup(pairs, "WECHAT_APP_ID", "WECHAT_APPID"),
            wechat_app_secret: first_lookup(pairs, "WECHAT_APP_SECRET", "WECHAT_APPSECRET"),
            wechat_token: get_optional_from_lookup(pairs, "WECHAT_TOKEN"),
            wechat_encoding_aes_key: get_optional_from_lookup(pairs, "WECHAT_ENCODING_AES_KEY"),
            admin_view_key: get_optional_from_lookup(pairs, "ADMIN_VIEW_KEY"),
            gemini_api_key: get_optional_from_lookup(pairs, "GEMINI_API_KEY"),
            openai_api_key: get_optional_from_lookup(pairs, "OPENAI_API_KEY"),
            anthropic_api_key: get_optional_from_lookup(pairs, "ANTHROPIC_API_KEY"),
            tencent_lbs_key: get_optional_from_lookup(pairs, "TENCENT_LBS_KEY"),
            jina_api_key: get_optional_from_lookup(pairs, "JINA_API_KEY"),
            admin_openids,
        }
    }

    /// The callback token, which signature checks need: an error when it is
    /// missing or empty.
    pub fn require_wechat_token(&self) -> (r: Result<&str, BridgeError>)
        ensures
            match r {
                Ok(t) => self.wechat_token matches Some(w) && w@ == t@ && t@.len() > 0,
                Err(e) => (self.wechat_token is None || self.wechat_token->Some_0@.len() == 0)
                    && e@ == (ErrorKind::Config, "WECHAT_TOKEN is required"@),
            },
    {
        match &self.wechat_token {
            Some(t) => if !t.as_str().is_empty() {
                return Ok(t.as_str());
            },
            None => {},
        }
        Err(BridgeError::Config(string_from("WECHAT_TOKEN is required")))
    }
}

/// The settings depend only on what each key looks up to: two lists of
/// resolved pairs in which every key has the same last value give the same
/// error, or accept the same configuration and secrets.
#[verifier::rlimit(50)]
pub proof fn lemma_settings_depend_only_on_lookups(
    p1: Seq<(Seq<char>, Seq<char>)>,
    p2: Seq<(Seq<char>, Seq<char>)>,
    c: AppConfig,
    secrets: EnvSecrets,
)
    requires
        forall|k: Seq<char>| crate::config::settings::lookup_spec(p1, k) == crate::config::settings::lookup_spec(p2, k),
    ensures
        config_error_spec(p1) == config_error_spec(p2),
        app_config_matches(c, p1) == app_config_matches(c, p2),
        secrets_match(secrets, p1) == secrets_match(secrets, p2),
{
}

/// The settings are accepted exactly when every boolean and numeric setting
/// reads: a blank or missing value takes its default, a boolean reads one of
/// the words `bool_word` knows, and a number reads as `str::parse` reads it
/// for its type; otherwise the error is the first bad setting's, in the
/// order the settings are listed.
pub proof fn lemma_settings_accepted_iff_each_reads(p: Seq<(Seq<char>, Seq<char>)>)
    ensures
        config_error_spec(p) is None <==> {
            &&& crate::config::settings::unsigned_setting(p, "DATABASE_MAX_CONNECTIONS"@, 4, u32::MAX as nat) is Ok
            &&& crate::config::settings::unsigned_setting(p, "DATABASE_MIN_CONNECTIONS"@, 1, u32::MAX as nat) is Ok
            &&& crate::config::settings::bool_setting(p, "RAW_ARCHIVE_FULL"@, true) is Ok
            &&& crate::config::settings::bool_setting(p, "WECHAT_ENCRYPTED_CALLBACK_ENABLED"@, false) is Ok
            &&& crate::config::settings::bool_setting(p, "HONEYPOT_REPLY_ENABLED"@, false) is Ok
            &&& crate::config::settings::bool_setting(p, "WORKER_ENABLED"@, true) is Ok
            &&& crate::config::settings::unsigned_setting(p, "WORKER_INTERVAL_MS"@, 1000, u64::MAX as nat) is Ok
            &&& crate::config::settings::unsigned_setting(p, "WORKER_PROCESSING_TIMEOUT_SECONDS"@, 900, u64::MAX as nat) is Ok
            &&& crate::config::settings::unsigned_setting(p, "WORKER_RETRY_BASE_SECONDS"@, 10, u64::MAX as nat) is Ok
            &&& crate::config::settings::unsigned_setting(p, "WORKER_RETRY_MAX_SECONDS"@, 300, u64::MAX as nat) is Ok
            &&& crate::config::settings::unsigned_setting(p, "HTTP_TIMEOUT_SECONDS"@, 30, u64::MAX as nat) is Ok
            &&& crate::config::settings::unsigned_setting(p, "REQUEST_BODY_LIMIT_BYTES"@, 2097152, usize::MAX as nat) is Ok
            &&& crate::config::settings::unsigned_setting(p, "MAX_MEDIA_BYTES"@, 20971520, u64::MAX as nat) is Ok
            &&& crate::config::settings::unsigned_setting(p, "WECHAT_TOKEN_REFRESH_SKEW_SECONDS"@, 300, u64::MAX as nat) is Ok
            &&& crate::config::settings::unsigned_setting(p, "GEMINI_MAX_INLINE_BYTES"@, 18874368, u64::MAX as nat) is Ok
            &&& crate::config::settings::bool_setting(p, "TENCENT_LBS_GET_POI"@, true) is Ok
            &&& crate::config::settings::optional_u32_setting(p, "TENCENT_LBS_RADIUS_METERS"@) is Ok
            &&& crate::config::settings::unsigned_setting(p, "ADMIN_DEFAULT_PER_PAGE"@, 20, u32::MAX as nat) is Ok
            &&& crate::config::settings::unsigned_setting(p, "ADMIN_MAX_PER_PAGE"@, 100, u32::MAX as nat) is Ok
        },
{
}

/// A setting that is missing or blank takes its default, whatever its kind.
pub proof fn lemma_blank_setting_takes_default(
    p: Seq<(Seq<char>, Seq<char>)>,
    key: Seq<char>,
    text_default: Seq<char>,
    bool_default: bool,
    number_default: nat,
    max: nat,
)
    requires
        match crate::config::settings::lookup_spec(p, key) {
            Some(v) => crate::text::trim_spec(v).len() == 0,
            None => true,
        },
    ensures
        crate::config::settings::string_setting(p, key, text_default) == text_default,
        crate::config::settings::bool_setting(p, key, bool_default) == Ok::<bool, ErrorView>(bool_default),
        crate::config::settings::unsigned_setting(p, key, number_default, max) == Ok::<nat, ErrorView>(number_default),
        crate::config::settings::optional_u32_setting(p, key) == Ok::<Option<nat>, ErrorView>(None),
        crate::config::settings::optional_string_setting(p, key) is None,
{
}

} // verus!
