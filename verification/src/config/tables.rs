//! The tables of command-line flags and environment aliases.
use vstd::prelude::*;

use crate::text::str_eq;

verus! {

/// The views of a table of string pairs.
pub open spec fn table_view(t: Seq<(&'static str, &'static str)>) -> Seq<(Seq<char>, Seq<char>)> {
    t.map_values(|p: (&'static str, &'static str)| (p.0@, p.1@))
}

/// Each command-line flag with the setting key it sets.
pub open spec fn flag_specs() -> Seq<(Seq<char>, Seq<char>)> {
    seq![
        ("--bind-addr"@, "APP_BIND_ADDR"@),
        ("--database-url"@, "DATABASE_URL"@),
        ("--database-max-connections"@, "DATABASE_MAX_CONNECTIONS"@),
        ("--database-min-connections"@, "DATABASE_MIN_CONNECTIONS"@),
        ("--raw-archive-dir"@, "RAW_ARCHIVE_DIR"@),
        ("--raw-archive-full"@, "RAW_ARCHIVE_FULL"@),
        ("--processed-artifact-dir"@, "PROCESSED_ARTIFACT_DIR"@),
        ("--sage-wiki-source-dir"@, "SAGE_WIKI_SOURCE_DIR"@),
        ("--sage-wiki-source-log-dir"@, "SAGE_WIKI_SOURCE_LOG_DIR"@),
        ("--wechat-callback-path"@, "WECHAT_CALLBACK_PATH"@),
        ("--wechat-encrypted-callback-enabled"@, "WECHAT_ENCRYPTED_CALLBACK_ENABLED"@),
        ("--honeypot-reply-enabled"@, "HONEYPOT_REPLY_ENABLED"@),
        ("--honeypot-reply-text"@, "HONEYPOT_REPLY_TEXT"@),
        ("--worker-enabled"@, "WORKER_ENABLED"@),
        ("--worker-id"@, "WORKER_ID"@),
        ("--bridge-version"@, "BRIDGE_VERSION"@),
        ("--worker-interval-ms"@, "WORKER_INTERVAL_MS"@),
        ("--worker-processing-timeout-seconds"@, "WORKER_PROCESSING_TIMEOUT_SECONDS"@),
        ("--worker-retry-base-seconds"@, "WORKER_RETRY_BASE_SECONDS"@),
        ("--worker-retry-max-seconds"@, "WORKER_RETRY_MAX_SECONDS"@),
        ("--http-timeout-seconds"@, "HTTP_TIMEOUT_SECONDS"@),
        ("--request-body-limit-bytes"@, "REQUEST_BODY_LIMIT_BYTES"@),
        ("--healthz-path"@, "HEALTHZ_PATH"@),
        ("--readyz-path"@, "READYZ_PATH"@),
        ("--wechat-api-base"@, "WECHAT_API_BASE"@),
        ("--max-media-bytes"@, "MAX_MEDIA_BYTES"@),
        ("--wechat-token-refresh-skew-seconds"@, "WECHAT_TOKEN_REFRESH_SKEW_SECONDS"@),
        ("--whitelist-join-command"@, "WHITELIST_JOIN_COMMAND"@),
        ("--gemini-endpoint-base"@, "GEMINI_ENDPOINT_BASE"@),
        ("--gemini-model"@, "GEMINI_MODEL"@),
        ("--gemini-max-inline-bytes"@, "GEMINI_MAX_INLINE_BYTES"@),
        ("--llm-image-system-prompt"@, "LLM_IMAGE_SYSTEM_PROMPT"@),
        ("--llm-voice-system-prompt"@, "LLM_VOICE_SYSTEM_PROMPT"@),
        ("--llm-video-system-prompt"@, "LLM_VIDEO_SYSTEM_PROMPT"@),
        ("--tencent-lbs-endpoint"@, "TENCENT_LBS_ENDPOINT"@),
        ("--tencent-lbs-get-poi"@, "TENCENT_LBS_GET_POI"@),
        ("--tencent-lbs-radius-meters"@, "TENCENT_LBS_RADIUS_METERS"@),
        ("--jina-reader-endpoint"@, "JINA_READER_ENDPOINT"@),
        ("--wechat-app-id"@, "WECHAT_APP_ID"@),
        ("--wechat-appid"@, "WECHAT_APP_ID"@),
        ("--wechat-app-secret"@, "WECHAT_APP_SECRET"@),
        ("--wechat-appsecret"@, "WECHAT_APP_SECRET"@),
        ("--wechat-token"@, "WECHAT_TOKEN"@),
        ("--wechat-encoding-aes-key"@, "WECHAT_ENCODING_AES_KEY"@),
        ("--admin-view-key"@, "ADMIN_VIEW_KEY"@),
        ("--admin-base-path"@, "ADMIN_BASE_PATH"@),
        ("--gemini-api-key"@, "GEMINI_API_KEY"@),
        ("--openai-api-key"@, "OPENAI_API_KEY"@),
        ("--anthropic-api-key"@, "ANTHROPIC_API_KEY"@),
        ("--tencent-lbs-key"@, "TENCENT_LBS_KEY"@),
        ("--jina-api-key"@, "JINA_API_KEY"@),
        ("--wechat-admin-openids"@, "WECHAT_ADMIN_OPENIDS"@),
        ("--rust-log"@, "RUST_LOG"@),
        ("--admin-default-per-page"@, "ADMIN_DEFAULT_PER_PAGE"@),
        ("--admin-max-per-page"@, "ADMIN_MAX_PER_PAGE"@),
    ]
}

/// Each alternative environment name with the setting key it stands for.
pub open spec fn env_alias_specs() -> Seq<(Seq<char>, Seq<char>)> {
    seq![
        ("BRIDGE_BIND_ADDR"@, "APP_BIND_ADDR"@),
        ("BRIDGE_DATABASE_URL"@, "DATABASE_URL"@),
        ("BRIDGE_DATABASE_MAX_CONNECTIONS"@, "DATABASE_MAX_CONNECTIONS"@),
        ("BRIDGE_DATABASE_MIN_CONNECTIONS"@, "DATABASE_MIN_CONNECTIONS"@),
        ("BRIDGE_RAW_ARCHIVE_DIR"@, "RAW_ARCHIVE_DIR"@),
        ("BRIDGE_RAW_ARCHIVE_FULL"@, "RAW_ARCHIVE_FULL"@),
        ("BRIDGE_PROCESSED_ARTIFACT_DIR"@, "PROCESSED_ARTIFACT_DIR"@),
        ("BRIDGE_SAGE_WIKI_SOURCE_DIR"@, "SAGE_WIKI_SOURCE_DIR"@),
        ("BRIDGE_SAGE_WIKI_SOURCE_LOG_DIR"@, "SAGE_WIKI_SOURCE_LOG_DIR"@),
        ("BRIDGE_WECHAT_CALLBACK_PATH"@, "WECHAT_CALLBACK_PATH"@),
        ("BRIDGE_WECHAT_ENCRYPTED_CALLBACK_ENABLED"@, "WECHAT_ENCRYPTED_CALLBACK_ENABLED"@),
        ("BRIDGE_HONEYPOT_REPLY_ENABLED"@, "HONEYPOT_REPLY_ENABLED"@),
        ("BRIDGE_HONEYPOT_REPLY_TEXT"@, "HONEYPOT_REPLY_TEXT"@),
        ("BRIDGE_WORKER_ENABLED"@, "WORKER_ENABLED"@),
        ("BRIDGE_WORKER_ID"@, "WORKER_ID"@),
        ("BRIDGE_APP_VERSION"@, "BRIDGE_VERSION"@),
        ("BRIDGE_BRIDGE_VERSION"@, "BRIDGE_VERSION"@),
        ("BRIDGE_WORKER_INTERVAL_MS"@, "WORKER_INTERVAL_MS"@),
        ("BRIDGE_WORKER_PROCESSING_TIMEOUT_SECONDS"@, "WORKER_PROCESSING_TIMEOUT_SECONDS"@),
        ("BRIDGE_WORKER_RETRY_BASE_SECONDS"@, "WORKER_RETRY_BASE_SECONDS"@),
        ("BRIDGE_WORKER_RETRY_MAX_SECONDS"@, "WORKER_RETRY_MAX_SECONDS"@),
        ("BRIDGE_HTTP_TIMEOUT_SECONDS"@, "HTTP_TIMEOUT_SECONDS"@),
        ("BRIDGE_REQUEST_BODY_LIMIT_BYTES"@, "REQUEST_BODY_LIMIT_BYTES"@),
        ("BRIDGE_HEALTHZ_PATH"@, "HEALTHZ_PATH"@),
        ("BRIDGE_READYZ_PATH"@, "READYZ_PATH"@),
        ("BRIDGE_WECHAT_API_BASE"@, "WECHAT_API_BASE"@),
        ("BRIDGE_MAX_MEDIA_BYTES"@, "MAX_MEDIA_BYTES"@),
        ("BRIDGE_WECHAT_TOKEN_REFRESH_SKEW_SECONDS"@, "WECHAT_TOKEN_REFRESH_SKEW_SECONDS"@),
        ("BRIDGE_WHITELIST_JOIN_COMMAND"@, "WHITELIST_JOIN_COMMAND"@),
        ("BRIDGE_GEMINI_ENDPOINT_BASE"@, "GEMINI_ENDPOINT_BASE"@),
        ("BRIDGE_GEMINI_MODEL"@, "GEMINI_MODEL"@),
        ("BRIDGE_GEMINI_MAX_INLINE_BYTES"@, "GEMINI_MAX_INLINE_BYTES"@),
        ("BRIDGE_LLM_IMAGE_SYSTEM_PROMPT"@, "LLM_IMAGE_SYSTEM_PROMPT"@),
        ("BRIDGE_LLM_VOICE_SYSTEM_PROMPT"@, "LLM_VOICE_SYSTEM_PROMPT"@),
        ("BRIDGE_LLM_VIDEO_SYSTEM_PROMPT"@, "LLM_VIDEO_SYSTEM_PROMPT"@),
        ("BRIDGE_TENCENT_LBS_ENDPOINT"@, "TENCENT_LBS_ENDPOINT"@),
        ("BRIDGE_TENCENT_LBS_GET_POI"@, "TENCENT_LBS_GET_POI"@),
        ("BRIDGE_TENCENT_LBS_RADIUS_METERS"@, "TENCENT_LBS_RADIUS_METERS"@),
        ("BRIDGE_JINA_READER_ENDPOINT"@, "JINA_READER_ENDPOINT"@),
        ("BRIDGE_RUST_LOG"@, "RUST_LOG"@),
        ("BRIDGE_ADMIN_BASE_PATH"@, "ADMIN_BASE_PATH"@),
        ("BRIDGE_ADMIN_DEFAULT_PER_PAGE"@, "ADMIN_DEFAULT_PER_PAGE"@),
        ("BRIDGE_ADMIN_MAX_PER_PAGE"@, "ADMIN_MAX_PER_PAGE"@),
        ("BRIDGE_WECHAT_APP_ID"@, "WECHAT_APP_ID"@),
        ("BRIDGE_WECHAT_APPID"@, "WECHAT_APP_ID"@),
        ("BRIDGE_WECHAT_APP_SECRET"@, "WECHAT_APP_SECRET"@),
        ("BRIDGE_WECHAT_APPSECRET"@, "WECHAT_APP_SECRET"@),
        ("BRIDGE_WECHAT_TOKEN"@, "WECHAT_TOKEN"@),
        ("BRIDGE_WECHAT_ENCODING_AES_KEY"@, "WECHAT_ENCODING_AES_KEY"@),
        ("BRIDGE_ADMIN_VIEW_KEY"@, "ADMIN_VIEW_KEY"@),
        ("BRIDGE_GEMINI_API_KEY"@, "GEMINI_API_KEY"@),
        ("BRIDGE_OPENAI_API_KEY"@, "OPENAI_API_KEY"@),
        ("BRIDGE_ANTHROPIC_API_KEY"@, "ANTHROPIC_API_KEY"@),
        ("BRIDGE_TENCENT_LBS_KEY"@, "TENCENT_LBS_KEY"@),
        ("BRIDGE_JINA_API_KEY"@, "JINA_API_KEY"@),
        ("BRIDGE_WECHAT_ADMIN_OPENIDS"@, "WECHAT_ADMIN_OPENIDS"@),
    ]
}

/// The table of `flag_specs`.
pub fn flag_table() -> (t: Vec<(&'static str, &'static str)>)
    ensures
        table_view(t@) == flag_specs(),
{
    let mut t: Vec<(&'static str, &'static str)> = Vec::new();
    t.push(("--bind-addr", "APP_BIND_ADDR"));
    t.push(("--database-url", "DATABASE_URL"));
    t.push(("--database-max-connections", "DATABASE_MAX_CONNECTIONS"));
    t.push(("--database-min-connections", "DATABASE_MIN_CONNECTIONS"));
    t.push(("--raw-archive-dir", "RAW_ARCHIVE_DIR"));
    t.push(("--raw-archive-full", "RAW_ARCHIVE_FULL"));
    t.push(("--processed-artifact-dir", "PROCESSED_ARTIFACT_DIR"));
    t.push(("--sage-wiki-source-dir", "SAGE_WIKI_SOURCE_DIR"));
    t.push(("--sage-wiki-source-log-dir", "SAGE_WIKI_SOURCE_LOG_DIR"));
    t.push(("--wechat-callback-path", "WECHAT_CALLBACK_PATH"));
    t.push(("--wechat-encrypted-callback-enabled", "WECHAT_ENCRYPTED_CALLBACK_ENABLED"));
    t.push(("--honeypot-reply-enabled", "HONEYPOT_REPLY_ENABLED"));
    t.push(("--honeypot-reply-text", "HONEYPOT_REPLY_TEXT"));
    t.push(("--worker-enabled", "WORKER_ENABLED"));
    t.push(("--worker-id", "WORKER_ID"));
    t.push(("--bridge-version", "BRIDGE_VERSION"));
    t.push(("--worker-interval-ms", "WORKER_INTERVAL_MS"));
    t.push(("--worker-processing-timeout-seconds", "WORKER_PROCESSING_TIMEOUT_SECONDS"));
    t.push(("--worker-retry-base-seconds", "WORKER_RETRY_BASE_SECONDS"));
    t.push(("--worker-retry-max-seconds", "WORKER_RETRY_MAX_SECONDS"));
    t.push(("--http-timeout-seconds", "HTTP_TIMEOUT_SECONDS"));
    t.push(("--request-body-limit-bytes", "REQUEST_BODY_LIMIT_BYTES"));
    t.push(("--healthz-path", "HEALTHZ_PATH"));
    t.push(("--readyz-path", "READYZ_PATH"));
    t.push(("--wechat-api-base", "WECHAT_API_BASE"));
    t.push(("--max-media-bytes", "MAX_MEDIA_BYTES"));
    t.push(("--wechat-token-refresh-skew-seconds", "WECHAT_TOKEN_REFRESH_SKEW_SECONDS"));
    t.push(("--whitelist-join-command", "WHITELIST_JOIN_COMMAND"));
    t.push(("--gemini-endpoint-base", "GEMINI_ENDPOINT_BASE"));
    t.push(("--gemini-model", "GEMINI_MODEL"));
    t.push(("--gemini-max-inline-bytes", "GEMINI_MAX_INLINE_BYTES"));
    t.push(("--llm-image-system-prompt", "LLM_IMAGE_SYSTEM_PROMPT"));
    t.push(("--llm-voice-system-prompt", "LLM_VOICE_SYSTEM_PROMPT"));
    t.push(("--llm-video-system-prompt", "LLM_VIDEO_SYSTEM_PROMPT"));
    t.push(("--tencent-lbs-endpoint", "TENCENT_LBS_ENDPOINT"));
    t.push(("--tencent-lbs-get-poi", "TENCENT_LBS_GET_POI"));
    t.push(("--tencent-lbs-radius-meters", "TENCENT_LBS_RADIUS_METERS"));
    t.push(("--jina-reader-endpoint", "JINA_READER_ENDPOINT"));
    t.push(("--wechat-app-id", "WECHAT_APP_ID"));
    t.push(("--wechat-appid", "WECHAT_APP_ID"));
    t.push(("--wechat-app-secret", "WECHAT_APP_SECRET"));
    t.push(("--wechat-appsecret", "WECHAT_APP_SECRET"));
    t.push(("--wechat-token", "WECHAT_TOKEN"));
    t.push(("--wechat-encoding-aes-key", "WECHAT_ENCODING_AES_KEY"));
    t.push(("--admin-view-key", "ADMIN_VIEW_KEY"));
    t.push(("--admin-base-path", "ADMIN_BASE_PATH"));
    t.push(("--gemini-api-key", "GEMINI_API_KEY"));
    t.push(("--openai-api-key", "OPENAI_API_KEY"));
    t.push(("--anthropic-api-key", "ANTHROPIC_API_KEY"));
    t.push(("--tencent-lbs-key", "TENCENT_LBS_KEY"));
    t.push(("--jina-api-key", "JINA_API_KEY"));
    t.push(("--wechat-admin-openids", "WECHAT_ADMIN_OPENIDS"));
    t.push(("--rust-log", "RUST_LOG"));
    t.push(("--admin-default-per-page", "ADMIN_DEFAULT_PER_PAGE"));
    t.push(("--admin-max-per-page", "ADMIN_MAX_PER_PAGE"));
    assert(table_view(t@) =~= flag_specs());
    t
}

/// The table of `env_alias_specs`.
pub fn env_alias_table() -> (t: Vec<(&'static str, &'static str)>)
    ensures
        table_view(t@) == env_alias_specs(),
{
    let mut t: Vec<(&'static str, &'static str)> = Vec::new();
    t.push(("BRIDGE_BIND_ADDR", "APP_BIND_ADDR"));
    t.push(("BRIDGE_DATABASE_URL", "DATABASE_URL"));
    t.push(("BRIDGE_DATABASE_MAX_CONNECTIONS", "DATABASE_MAX_CONNECTIONS"));
    t.push(("BRIDGE_DATABASE_MIN_CONNECTIONS", "DATABASE_MIN_CONNECTIONS"));
    t.push(("BRIDGE_RAW_ARCHIVE_DIR", "RAW_ARCHIVE_DIR"));
    t.push(("BRIDGE_RAW_ARCHIVE_FULL", "RAW_ARCHIVE_FULL"));
    t.push(("BRIDGE_PROCESSED_ARTIFACT_DIR", "PROCESSED_ARTIFACT_DIR"));
    t.push(("BRIDGE_SAGE_WIKI_SOURCE_DIR", "SAGE_WIKI_SOURCE_DIR"));
    t.push(("BRIDGE_SAGE_WIKI_SOURCE_LOG_DIR", "SAGE_WIKI_SOURCE_LOG_DIR"));
    t.push(("BRIDGE_WECHAT_CALLBACK_PATH", "WECHAT_CALLBACK_PATH"));
    t.push(("BRIDGE_WECHAT_ENCRYPTED_CALLBACK_ENABLED", "WECHAT_ENCRYPTED_CALLBACK_ENABLED"));
    t.push(("BRIDGE_HONEYPOT_REPLY_ENABLED", "HONEYPOT_REPLY_ENABLED"));
    t.push(("BRIDGE_HONEYPOT_REPLY_TEXT", "HONEYPOT_REPLY_TEXT"));
    t.push(("BRIDGE_WORKER_ENABLED", "WORKER_ENABLED"));
    t.push(("BRIDGE_WORKER_ID", "WORKER_ID"));
    t.push(("BRIDGE_APP_VERSION", "BRIDGE_VERSION"));
    t.push(("BRIDGE_BRIDGE_VERSION", "BRIDGE_VERSION"));
    t.push(("BRIDGE_WORKER_INTERVAL_MS", "WORKER_INTERVAL_MS"));
    t.push(("BRIDGE_WORKER_PROCESSING_TIMEOUT_SECONDS", "WORKER_PROCESSING_TIMEOUT_SECONDS"));
    t.push(("BRIDGE_WORKER_RETRY_BASE_SECONDS", "WORKER_RETRY_BASE_SECONDS"));
    t.push(("BRIDGE_WORKER_RETRY_MAX_SECONDS", "WORKER_RETRY_MAX_SECONDS"));
    t.push(("BRIDGE_HTTP_TIMEOUT_SECONDS", "HTTP_TIMEOUT_SECONDS"));
    t.push(("BRIDGE_REQUEST_BODY_LIMIT_BYTES", "REQUEST_BODY_LIMIT_BYTES"));
    t.push(("BRIDGE_HEALTHZ_PATH", "HEALTHZ_PATH"));
    t.push(("BRIDGE_READYZ_PATH", "READYZ_PATH"));
    t.push(("BRIDGE_WECHAT_API_BASE", "WECHAT_API_BASE"));
    t.push(("BRIDGE_MAX_MEDIA_BYTES", "MAX_MEDIA_BYTES"));
    t.push(("BRIDGE_WECHAT_TOKEN_REFRESH_SKEW_SECONDS", "WECHAT_TOKEN_REFRESH_SKEW_SECONDS"));
    t.push(("BRIDGE_WHITELIST_JOIN_COMMAND", "WHITELIST_JOIN_COMMAND"));
    t.push(("BRIDGE_GEMINI_ENDPOINT_BASE", "GEMINI_ENDPOINT_BASE"));
    t.push(("BRIDGE_GEMINI_MODEL", "GEMINI_MODEL"));
    t.push(("BRIDGE_GEMINI_MAX_INLINE_BYTES", "GEMINI_MAX_INLINE_BYTES"));
    t.push(("BRIDGE_LLM_IMAGE_SYSTEM_PROMPT", "LLM_IMAGE_SYSTEM_PROMPT"));
    t.push(("BRIDGE_LLM_VOICE_SYSTEM_PROMPT", "LLM_VOICE_SYSTEM_PROMPT"));
    t.push(("BRIDGE_LLM_VIDEO_SYSTEM_PROMPT", "LLM_VIDEO_SYSTEM_PROMPT"));
    t.push(("BRIDGE_TENCENT_LBS_ENDPOINT", "TENCENT_LBS_ENDPOINT"));
    t.push(("BRIDGE_TENCENT_LBS_GET_POI", "TENCENT_LBS_GET_POI"));
    t.push(("BRIDGE_TENCENT_LBS_RADIUS_METERS", "TENCENT_LBS_RADIUS_METERS"));
    t.push(("BRIDGE_JINA_READER_ENDPOINT", "JINA_READER_ENDPOINT"));
    t.push(("BRIDGE_RUST_LOG", "RUST_LOG"));
    t.push(("BRIDGE_ADMIN_BASE_PATH", "ADMIN_BASE_PATH"));
    t.push(("BRIDGE_ADMIN_DEFAULT_PER_PAGE", "ADMIN_DEFAULT_PER_PAGE"));
    t.push(("BRIDGE_ADMIN_MAX_PER_PAGE", "ADMIN_MAX_PER_PAGE"));
    t.push(("BRIDGE_WECHAT_APP_ID", "WECHAT_APP_ID"));
    t.push(("BRIDGE_WECHAT_APPID", "WECHAT_APP_ID"));
    t.push(("BRIDGE_WECHAT_APP_SECRET", "WECHAT_APP_SECRET"));
    t.push(("BRIDGE_WECHAT_APPSECRET", "WECHAT_APP_SECRET"));
    t.push(("BRIDGE_WECHAT_TOKEN", "WECHAT_TOKEN"));
    t.push(("BRIDGE_WECHAT_ENCODING_AES_KEY", "WECHAT_ENCODING_AES_KEY"));
    t.push(("BRIDGE_ADMIN_VIEW_KEY", "ADMIN_VIEW_KEY"));
    t.push(("BRIDGE_GEMINI_API_KEY", "GEMINI_API_KEY"));
    t.push(("BRIDGE_OPENAI_API_KEY", "OPENAI_API_KEY"));
    t.push(("BRIDGE_ANTHROPIC_API_KEY", "ANTHROPIC_API_KEY"));
    t.push(("BRIDGE_TENCENT_LBS_KEY", "TENCENT_LBS_KEY"));
    t.push(("BRIDGE_JINA_API_KEY", "JINA_API_KEY"));
    t.push(("BRIDGE_WECHAT_ADMIN_OPENIDS", "WECHAT_ADMIN_OPENIDS"));
    assert(table_view(t@) =~= env_alias_specs());
    t
}

/// The second part of the first pair whose first part is `k`.
pub open spec fn find_by_first(t: Seq<(Seq<char>, Seq<char>)>, k: Seq<char>) -> Option<Seq<char>>
    decreases t.len(),
{
    if t.len() == 0 {
        None
    } else if t[0].0 == k {
        Some(t[0].1)
    } else {
        find_by_first(t.drop_first(), k)
    }
}

/// Whether some pair has `k` as its second part.
pub open spec fn has_second(t: Seq<(Seq<char>, Seq<char>)>, k: Seq<char>) -> bool {
    exists|i: int| 0 <= i < t.len() && #[trigger] t[i].1 == k
}

/// Looks `k` up among the first parts of a table.
pub fn lookup_first(t: &Vec<(&'static str, &'static str)>, k: &str) -> (r: Option<&'static str>)
    ensures
        match r {
            Some(v) => find_by_first(table_view(t@), k@) == Some(v@),
            None => find_by_first(table_view(t@), k@) is None,
        },
{
    let mut i: usize = 0;
    assert(table_view(t@).skip(0) == table_view(t@));
    while i < t.len()
        invariant
            i <= t.len(),
            find_by_first(table_view(t@), k@) == find_by_first(table_view(t@).skip(i as int), k@),
        decreases t.len() - i,
    {
        assert(table_view(t@).skip(i as int)[0] == (t@[i as int].0@, t@[i as int].1@));
        assert(table_view(t@).skip(i as int).drop_first() == table_view(t@).skip(i + 1));
        if str_eq(t[i].0, k) {
            return Some(t[i].1);
        }
        i += 1;
    }
    None
}

/// Whether `k` is the second part of some pair of a table.
pub fn contains_second(t: &Vec<(&'static str, &'static str)>, k: &str) -> (r: bool)
    ensures
        r == has_second(table_view(t@), k@),
{
    let mut i: usize = 0;
    while i < t.len()
        invariant
            i <= t.len(),
            forall|j: int| 0 <= j < i ==> table_view(t@)[j].1 != k@,
        decreases t.len() - i,
    {
        if str_eq(t[i].1, k) {
            assert(table_view(t@)[i as int].1 == k@);
            return true;
        }
        i += 1;
    }
    false
}

} // verus!
