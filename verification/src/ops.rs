//! Operations helpers: local URLs of the service, the directory of the
//! SQLite database, and the checks of the `doctor` command.
//!
//! Printing and probing the file system are left to the caller.
use vstd::prelude::*;

use crate::config::app::{AppConfig, EnvSecrets};
use crate::enrich::{JinaReaderOptions, TencentLbsOptions};
use crate::llm::GeminiConfig;
use crate::media::WechatApiConfig;
use crate::receiver::ReceiverConfig;
use crate::worker::media_processor::MediaPrompts;
use crate::worker::RetryPolicy;
use crate::config::RuntimeConfigReport;
use crate::error::{BridgeError, ErrorKind};
use crate::text::{chars_of, is_blank, push_str, starts_with, string_from, string_of_range};

verus! {

/// What `std::path::Path::parent` gives for a path, as text.
pub uninterp spec fn path_parent_spec(path: Seq<char>) -> Option<Seq<char>>;

/// `std::path::Path::new(path).parent()`, displayed.
/// Trusted: the result is the standard library's parent of the path, shown
/// as text; nothing more is claimed of it.
#[verifier::external_body]
pub(crate) fn path_parent(path: &str) -> (r: Option<String>)
    ensures
        crate::config::settings::opt_str(r) == path_parent_spec(path@),
{
    std::path::Path::new(path).parent().map(|p| p.display().to_string())
}

/// The address to reach the service on this machine: a wildcard bind
/// address is reached on the loopback address, same port.
pub open spec fn local_addr_spec(bind_addr: Seq<char>) -> Seq<char> {
    if crate::text::starts_with_spec(bind_addr, "0.0.0.0:"@) {
        "127.0.0.1:"@ + bind_addr.skip(8)
    } else {
        bind_addr
    }
}

/// The local URL of a path of the service.
pub open spec fn local_url_spec(bind_addr: Seq<char>, path: Seq<char>) -> Seq<char> {
    "http://"@ + local_addr_spec(bind_addr) + path
}

/// The local URL of a path of the service (see `local_url_spec`).
pub fn local_url(config: &AppConfig, path: &str) -> (r: String)
    ensures
        r@ == local_url_spec(config.bind_addr@, path@),
{
    let v = chars_of(config.bind_addr.as_str());
    let p = chars_of("0.0.0.0:");
    proof {
        reveal_strlit("0.0.0.0:");
    }
    let mut out = string_from("http://");
    if starts_with(&v, &p) {
        push_str(&mut out, "127.0.0.1:");
        let port = string_of_range(&v, 8, v.len());
        assert(v@.subrange(8, v@.len() as int) == v@.skip(8));
        push_str(&mut out, port.as_str());
    } else {
        push_str(&mut out, config.bind_addr.as_str());
    }
    push_str(&mut out, path);
    out
}

/// The directory of a SQLite database URL: the parent of the path after
/// `sqlite://`; nothing for other URLs.
pub open spec fn sqlite_parent_spec(database_url: Seq<char>) -> Option<Seq<char>> {
    if crate::text::starts_with_spec(database_url, "sqlite://"@) {
        path_parent_spec(database_url.skip(9))
    } else {
        None
    }
}

/// The directory of a SQLite database URL (see `sqlite_parent_spec`).
pub fn sqlite_database_parent(database_url: &str) -> (r: Option<String>)
    ensures
        crate::config::settings::opt_str(r) == sqlite_parent_spec(database_url@),
{
    let v = chars_of(database_url);
    let p = chars_of("sqlite://");
    proof {
        reveal_strlit("sqlite://");
    }
    if !starts_with(&v, &p) {
        return None;
    }
    let rest = string_of_range(&v, 9, v.len());
    assert(v@.subrange(9, v@.len() as int) == v@.skip(9));
    path_parent(rest.as_str())
}

/// A path for display, or `<not loaded>`.
pub fn display_optional_path(path: Option<&str>) -> (r: String)
    ensures
        r@ == match path {
            Some(p) => p@,
            None => "<not loaded>"@,
        },
{
    match path {
        Some(p) => string_from(p),
        None => string_from("<not loaded>"),
    }
}

/// A setting the doctor requires, and whether it is set.
#[derive(Debug, Clone, PartialEq, Eq)]
pub struct RequiredCheck {
    pub name: String,
    pub ok: bool,
}

/// A directory the doctor checks, and whether it may create it first.
#[derive(Debug, Clone, PartialEq, Eq)]
pub struct DirCheck {
    pub label: String,
    pub path: String,
    pub create: bool,
}

/// What the doctor checks of a configuration.
#[derive(Debug, Clone, PartialEq, Eq)]
pub struct DoctorPlan {
    pub header: Vec<String>,
    pub required: Vec<RequiredCheck>,
    pub dirs: Vec<DirCheck>,
}

/// A value counts as set when it is present and not blank.
pub open spec fn is_set(v: Option<Seq<char>>) -> bool {
    match v {
        Some(s) => crate::text::trim_spec(s).len() > 0,
        None => false,
    }
}

/// What the doctor requires: the callback token, admin OpenIDs and the admin
/// view key always; the encoding key when encrypted callbacks are enabled.
pub open spec fn required_spec(config: AppConfig, secrets: EnvSecrets) -> Seq<(Seq<char>, bool)> {
    let base = seq![
        ("WECHAT_TOKEN"@, is_set(crate::config::settings::opt_str(secrets.wechat_token))),
        ("WECHAT_ADMIN_OPENIDS"@, secrets.admin_openids@.len() > 0),
        ("ADMIN_VIEW_KEY"@, is_set(crate::config::settings::opt_str(secrets.admin_view_key))),
    ];
    if config.encrypted_callback_enabled {
        base.push(
            (
                "WECHAT_ENCODING_AES_KEY"@,
                is_set(crate::config::settings::opt_str(secrets.wechat_encoding_aes_key)),
            ),
        )
    } else {
        base
    }
}

/// The directories the doctor checks: the source directory as it is; the
/// archive and artifact directories, and the database's directory, created
/// if missing.
pub open spec fn dirs_spec(config: AppConfig) -> Seq<(Seq<char>, Seq<char>, bool)> {
    let base = seq![
        ("sage-wiki source dir"@, config.source_dir@, false),
        ("raw archive dir"@, config.raw_archive_dir@, true),
        ("processed artifact dir"@, config.processed_artifact_dir@, true),
    ];
    match sqlite_parent_spec(config.database_url@) {
        Some(p) => base.push(("database dir"@, p, true)),
        None => base,
    }
}

fn set_of(v: &Option<String>) -> (r: bool)
    ensures
        r == is_set(crate::config::settings::opt_str(*v)),
{
    match v {
        Some(s) => !is_blank(s.as_str()),
        None => false,
    }
}

/// The header lines the doctor prints.
pub open spec fn doctor_header_spec(config: AppConfig, env_file: Option<Seq<char>>) -> Seq<Seq<char>> {
    seq![
        "sage-wiki-bridge doctor"@,
        "package_version: "@ + crate::status::package_version_spec(),
        "env_file: "@ + match env_file {
            Some(p) => p,
            None => "<not loaded>"@,
        },
        "bind_addr: "@ + config.bind_addr@,
        "callback_path: "@ + config.callback_path@,
        "database_url: "@ + config.database_url@,
        "health_url: "@ + local_url_spec(config.bind_addr@, config.healthz_path@),
        "ready_url: "@ + local_url_spec(config.bind_addr@, config.readyz_path@),
    ]
}

fn line(label: &str, value: &str) -> (r: String)
    ensures
        r@ == label@ + value@,
{
    let mut s = string_from(label);
    push_str(&mut s, value);
    s
}

/// What the doctor checks of a resolved configuration.
pub fn doctor_plan(report: &RuntimeConfigReport, env_file: Option<&str>) -> (r: DoctorPlan)
    ensures
        crate::config::app::strings_view(r.header@) == doctor_header_spec(
            report.runtime.app,
            match env_file {
                Some(p) => Some(p@),
                None => None,
            },
        ),
        r.required@.map_values(|c: RequiredCheck| (c.name@, c.ok)) == required_spec(
            report.runtime.app,
            report.runtime.secrets,
        ),
        r.dirs@.map_values(|d: DirCheck| (d.label@, d.path@, d.create)) == dirs_spec(
            report.runtime.app,
        ),
{
    let config = &report.runtime.app;
    let secrets = &report.runtime.secrets;
    let mut header: Vec<String> = Vec::new();
    header.push(string_from("sage-wiki-bridge doctor"));
    header.push(line("package_version: ", crate::status::package_version()));
    let shown = display_optional_path(env_file);
    header.push(line("env_file: ", shown.as_str()));
    header.push(line("bind_addr: ", config.bind_addr.as_str()));
    header.push(line("callback_path: ", config.callback_path.as_str()));
    header.push(line("database_url: ", config.database_url.as_str()));
    let health = local_url(config, config.healthz_path.as_str());
    header.push(line("health_url: ", health.as_str()));
    let ready = local_url(config, config.readyz_path.as_str());
    header.push(line("ready_url: ", ready.as_str()));
    let mut required: Vec<RequiredCheck> = Vec::new();
    required.push(RequiredCheck { name: string_from("WECHAT_TOKEN"), ok: set_of(&secrets.wechat_token) });
    required.push(
        RequiredCheck {
            name: string_from("WECHAT_ADMIN_OPENIDS"),
            ok: secrets.admin_openids.len() > 0,
        },
    );
    required.push(RequiredCheck { name: string_from("ADMIN_VIEW_KEY"), ok: set_of(&secrets.admin_view_key) });
    if config.encrypted_callback_enabled {
        required.push(
            RequiredCheck {
                name: string_from("WECHAT_ENCODING_AES_KEY"),
                ok: set_of(&secrets.wechat_encoding_aes_key),
            },
        );
    }
    let mut dirs: Vec<DirCheck> = Vec::new();
    dirs.push(
        DirCheck {
            label: string_from("sage-wiki source dir"),
            path: string_from(config.source_dir.as_str()),
            create: false,
        },
    );
    dirs.push(
        DirCheck {
            label: string_from("raw archive dir"),
            path: string_from(config.raw_archive_dir.as_str()),
            create: true,
        },
    );
    dirs.push(
        DirCheck {
            label: string_from("processed artifact dir"),
            path: string_from(config.processed_artifact_dir.as_str()),
            create: true,
        },
    );
    match sqlite_database_parent(config.database_url.as_str()) {
        Some(p) => dirs.push(DirCheck { label: string_from("database dir"), path: p, create: true }),
        None => {},
    }
    assert(crate::config::app::strings_view(header@) =~= doctor_header_spec(
        *config,
        match env_file {
            Some(p) => Some(p@),
            None => None,
        },
    ));
    assert(required@.map_values(|c: RequiredCheck| (c.name@, c.ok)) =~= required_spec(
        *config,
        *secrets,
    ));
    assert(dirs@.map_values(|d: DirCheck| (d.label@, d.path@, d.create)) =~= dirs_spec(*config));
    DoctorPlan { header, required, dirs }
}

/// The line the doctor prints for a required setting.
pub fn required_line(name: &str, ok: bool) -> (r: String)
    ensures
        r@ == if ok {
            "ok: "@ + name@ + " is set"@
        } else {
            "error: "@ + name@ + " is required"@
        },
{
    if ok {
        let mut s = string_from("ok: ");
        push_str(&mut s, name);
        push_str(&mut s, " is set");
        s
    } else {
        let mut s = string_from("error: ");
        push_str(&mut s, name);
        push_str(&mut s, " is required");
        s
    }
}

/// What a directory looked like.
#[derive(Debug, Clone, Copy, PartialEq, Eq, Structural)]
pub enum DirState {
    Writable,
    ReadOnly,
    Missing,
}

/// The line the doctor prints for a directory, and whether it passes: only
/// a writable directory does.
pub fn dir_line(label: &str, path: &str, state: DirState) -> (r: (String, bool))
    ensures
        r.1 == (state == DirState::Writable),
        r.0@ == match state {
            DirState::Writable => "ok: "@ + label@ + " exists and is writable: "@ + path@,
            DirState::ReadOnly => "error: "@ + label@ + " exists but is not writable: "@ + path@,
            DirState::Missing => "error: "@ + label@ + " does not exist: "@ + path@,
        },
{
    let (head, tail, ok) = match state {
        DirState::Writable => ("ok: ", " exists and is writable: ", true),
        DirState::ReadOnly => ("error: ", " exists but is not writable: ", false),
        DirState::Missing => ("error: ", " does not exist: ", false),
    };
    let mut s = string_from(head);
    push_str(&mut s, label);
    push_str(&mut s, tail);
    push_str(&mut s, path);
    (s, ok)
}

/// The outcome of the doctor's checks: an error when any check failed.
pub fn doctor_outcome(failed: bool) -> (r: Result<(), BridgeError>)
    ensures
        r is Ok <==> !failed,
        r matches Err(e) ==> e@ == (ErrorKind::Config, "doctor found one or more blocking problems"@),
{
    if failed {
        Err(BridgeError::Config(string_from("doctor found one or more blocking problems")))
    } else {
        Ok(())
    }
}

/// The directory to create for a SQLite database: the parent of its path,
/// unless the URL is not SQLite, the database is in memory, or the parent is
/// empty.
pub open spec fn sqlite_dir_to_create_spec(database_url: Seq<char>) -> Option<Seq<char>> {
    if !crate::text::starts_with_spec(database_url, "sqlite://"@) || database_url.skip(9) == ":memory:"@ {
        None
    } else {
        match path_parent_spec(database_url.skip(9)) {
            Some(p) => if p.len() == 0 {
                None
            } else {
                Some(p)
            },
            None => None,
        }
    }
}

/// The directory to create for a SQLite database (see `sqlite_dir_to_create_spec`).
pub fn sqlite_dir_to_create(database_url: &str) -> (r: Option<String>)
    ensures
        crate::config::settings::opt_str(r) == sqlite_dir_to_create_spec(database_url@),
{
    let v = chars_of(database_url);
    let p = chars_of("sqlite://");
    proof {
        reveal_strlit("sqlite://");
    }
    if !starts_with(&v, &p) {
        return None;
    }
    let rest = string_of_range(&v, 9, v.len());
    assert(v@.subrange(9, v@.len() as int) == v@.skip(9));
    if crate::text::str_eq(rest.as_str(), ":memory:") {
        return None;
    }
    match path_parent(rest.as_str()) {
        Some(parent) => if parent.as_str().is_empty() {
            None
        } else {
            Some(parent)
        },
        None => None,
    }
}

/// A secret that is present and not empty.
pub open spec fn usable(v: Option<String>) -> Option<Seq<char>> {
    match v {
        Some(s) => if s@.len() > 0 {
            Some(s@)
        } else {
            None
        },
        None => None,
    }
}

fn usable_of(v: &Option<String>) -> (r: Option<String>)
    ensures
        crate::config::settings::opt_str(r) == usable(*v),
{
    match v {
        Some(s) => if s.as_str().is_empty() {
            None
        } else {
            Some(string_from(s.as_str()))
        },
        None => None,
    }
}

/// What the media processor is built from.
#[derive(Debug, Clone, PartialEq, Eq)]
pub struct MediaProcessorSettings {
    pub api: WechatApiConfig,
    pub gemini: GeminiConfig,
    pub raw_root: String,
    pub token_refresh_skew_secs: u64,
    pub http_timeout_secs: u64,
    pub max_media_bytes: u64,
    pub prompts: MediaPrompts,
}

/// The media processor's settings: unless the app id, the app secret and the
/// Gemini key are all set and not empty, the key of the first of them that
/// is missing (media jobs then use the stand-in); else the API, model and
/// prompts from the configuration.
pub open spec fn media_settings_matches(config: AppConfig, secrets: EnvSecrets, r: Result<MediaProcessorSettings, String>) -> bool {
    match (usable(secrets.wechat_app_id), usable(secrets.wechat_app_secret), usable(secrets.gemini_api_key)) {
        (Some(id), Some(secret), Some(key)) => r matches Ok(m) && m.api.api_base@ == config.wechat_api_base@
            && m.api.app_id@ == id && m.api.app_secret@ == secret && m.gemini.endpoint_base@
            == config.gemini_endpoint_base@ && m.gemini.api_key@ == key && m.gemini.model@
            == config.gemini_model@ && m.gemini.max_inline_bytes == config.gemini_max_inline_bytes
            && m.raw_root@ == config.raw_archive_dir@ && m.token_refresh_skew_secs
            == config.wechat_token_refresh_skew_secs && m.http_timeout_secs == config.http_timeout_secs
            && m.max_media_bytes == config.max_media_bytes && m.prompts.image_prompt@
            == config.llm_image_system_prompt@ && m.prompts.voice_prompt@
            == config.llm_voice_system_prompt@ && m.prompts.video_prompt@
            == config.llm_video_system_prompt@,
        (None, _, _) => r matches Err(k) && k@ == "WECHAT_APP_ID"@,
        (Some(_), None, _) => r matches Err(k) && k@ == "WECHAT_APP_SECRET"@,
        _ => r matches Err(k) && k@ == "GEMINI_API_KEY"@,
    }
}

/// The media processor's settings (see `media_settings_matches`).
pub fn media_processor_settings(config: &AppConfig, secrets: &EnvSecrets) -> (r: Result<MediaProcessorSettings, String>)
    ensures
        media_settings_matches(*config, *secrets, r),
{
    let app_id = match usable_of(&secrets.wechat_app_id) {
        Some(v) => v,
        None => return Err(string_from("WECHAT_APP_ID")),
    };
    let app_secret = match usable_of(&secrets.wechat_app_secret) {
        Some(v) => v,
        None => return Err(string_from("WECHAT_APP_SECRET")),
    };
    let key = match usable_of(&secrets.gemini_api_key) {
        Some(v) => v,
        None => return Err(string_from("GEMINI_API_KEY")),
    };
    let prompts = MediaPrompts::new().with_prompts(
        config.llm_image_system_prompt.as_str(),
        config.llm_voice_system_prompt.as_str(),
        config.llm_video_system_prompt.as_str(),
    );
    Ok(
        MediaProcessorSettings {
            api: WechatApiConfig {
                api_base: string_from(config.wechat_api_base.as_str()),
                app_id,
                app_secret,
            },
            gemini: GeminiConfig {
                endpoint_base: string_from(config.gemini_endpoint_base.as_str()),
                api_key: key,
                model: string_from(config.gemini_model.as_str()),
                max_inline_bytes: config.gemini_max_inline_bytes,
            },
            raw_root: string_from(config.raw_archive_dir.as_str()),
            token_refresh_skew_secs: config.wechat_token_refresh_skew_secs,
            http_timeout_secs: config.http_timeout_secs,
            max_media_bytes: config.max_media_bytes,
            prompts,
        },
    )
}

/// What the outside-service clients are built from.
#[derive(Debug, Clone, PartialEq, Eq)]
pub struct ExternalClientSettings {
    pub lbs: TencentLbsOptions,
    pub jina: JinaReaderOptions,
    pub jina_api_key: Option<String>,
    pub http_timeout_secs: u64,
}

/// The clients' settings: none (location and link jobs then use the
/// stand-in) unless the Tencent LBS key is set and not empty.
pub open spec fn client_settings_matches(config: AppConfig, secrets: EnvSecrets, r: Option<ExternalClientSettings>) -> bool {
    match usable(secrets.tencent_lbs_key) {
        Some(key) => r matches Some(c) && c.lbs.endpoint@ == config.tencent_lbs_endpoint@ && c.lbs.key@
            == key && c.lbs.get_poi == config.tencent_lbs_get_poi && c.lbs.radius_meters
            == config.tencent_lbs_radius_meters && c.jina.endpoint@ == config.jina_reader_endpoint@
            && crate::config::settings::opt_str(c.jina_api_key) == crate::config::settings::opt_str(
            secrets.jina_api_key,
        ) && c.http_timeout_secs == config.http_timeout_secs,
        None => r is None,
    }
}

/// The clients' settings (see `client_settings_matches`).
pub fn external_client_settings(config: &AppConfig, secrets: &EnvSecrets) -> (r: Option<ExternalClientSettings>)
    ensures
        client_settings_matches(*config, *secrets, r),
{
    let key = match usable_of(&secrets.tencent_lbs_key) {
        Some(k) => k,
        None => return None,
    };
    Some(
        ExternalClientSettings {
            lbs: TencentLbsOptions {
                endpoint: string_from(config.tencent_lbs_endpoint.as_str()),
                key,
                get_poi: config.tencent_lbs_get_poi,
                radius_meters: config.tencent_lbs_radius_meters,
            },
            jina: JinaReaderOptions { endpoint: string_from(config.jina_reader_endpoint.as_str()) },
            jina_api_key: match &secrets.jina_api_key {
                Some(k) => Some(string_from(k.as_str())),
                None => None,
            },
            http_timeout_secs: config.http_timeout_secs,
        },
    )
}

/// The callback settings of a configuration, with the required token.
pub fn receiver_config(config: &AppConfig, secrets: &EnvSecrets, wechat_token: &str) -> (r: ReceiverConfig)
    ensures
        r.wechat_token@ == wechat_token@,
        r.callback_path@ == config.callback_path@,
        r.encrypted_callback_enabled == config.encrypted_callback_enabled,
        crate::config::settings::opt_str(r.wechat_app_id) == crate::config::settings::opt_str(
            secrets.wechat_app_id,
        ),
        crate::config::settings::opt_str(r.wechat_encoding_aes_key)
            == crate::config::settings::opt_str(secrets.wechat_encoding_aes_key),
        r.honeypot_reply_enabled == config.honeypot_reply_enabled,
        r.honeypot_reply_text@ == config.honeypot_reply_text@,
        crate::config::settings::opt_str(r.whitelist_join_command)
            == crate::config::settings::opt_str(config.whitelist_join_command),
        r.request_body_limit_bytes == config.request_body_limit_bytes,
{
    let copy = |v: &Option<String>| -> (r: Option<String>)
        ensures
            crate::config::settings::opt_str(r) == crate::config::settings::opt_str(*v),
        {
            match v {
                Some(s) => Some(string_from(s.as_str())),
                None => None,
            }
        };
    ReceiverConfig {
        wechat_token: string_from(wechat_token),
        callback_path: string_from(config.callback_path.as_str()),
        encrypted_callback_enabled: config.encrypted_callback_enabled,
        wechat_app_id: copy(&secrets.wechat_app_id),
        wechat_encoding_aes_key: copy(&secrets.wechat_encoding_aes_key),
        honeypot_reply_enabled: config.honeypot_reply_enabled,
        honeypot_reply_text: string_from(config.honeypot_reply_text.as_str()),
        whitelist_join_command: copy(&config.whitelist_join_command),
        request_body_limit_bytes: config.request_body_limit_bytes,
    }
}

/// The retry policy of a configuration.
pub fn retry_policy(config: &AppConfig) -> (r: RetryPolicy)
    ensures
        r.base_delay_secs == config.worker_retry_base_secs,
        r.max_delay_secs == config.worker_retry_max_secs,
{
    RetryPolicy { base_delay_secs: config.worker_retry_base_secs, max_delay_secs: config.worker_retry_max_secs }
}

} // verus!
