use sage_wiki_bridge::config::app::{parse_list_env, AppConfig};
use sage_wiki_bridge::config::cli::{CliAction, CliCommand, CliConfig};
use sage_wiki_bridge::config::report::{config_entry_line, ConfigReportEntry};
use sage_wiki_bridge::status::package_version;
use sage_wiki_bridge::config::env_file::parse_env_file;
use sage_wiki_bridge::config::{runtime_config_from_args, runtime_config_report_from_args};
use sage_wiki_bridge::error::BridgeError;

fn args(values: &[&str]) -> Vec<String> {
    values.iter().map(|v| v.to_string()).collect()
}

fn pairs(values: &[(&str, &str)]) -> Vec<(String, String)> {
    values
        .iter()
        .map(|(k, v)| (k.to_string(), v.to_string()))
        .collect()
}

fn config_from_pairs(values: &[(&str, &str)]) -> Result<AppConfig, BridgeError> {
    AppConfig::from_lookup(&pairs(values))
}

#[test]
fn cli_flags_build_runtime_config_without_implicit_env() {
    let runtime = runtime_config_from_args(
        &args(&[
            "sage-wiki-bridge",
            "--wechat-token",
            "token-from-cli",
            "--bind-addr",
            "0.0.0.0:18080",
            "--worker-enabled",
            "false",
        ]),
        None,
        &pairs(&[("APP_BIND_ADDR", "ignored:1")]),
    )
    .unwrap()
    .unwrap();

    assert_eq!(runtime.secrets.wechat_token.as_deref(), Some("token-from-cli"));
    assert_eq!(runtime.app.bind_addr, "0.0.0.0:18080");
    assert!(!runtime.app.worker_enabled);
    assert_eq!(runtime.app.database_url, "sqlite://data/bridge.sqlite3");
}

#[test]
fn cli_overrides_explicit_env_file() {
    let runtime = runtime_config_from_args(
        &args(&[
            "sage-wiki-bridge",
            "--env-file",
            "/tmp/bridge.env",
            "--bind-addr",
            "127.0.0.1:18081",
        ]),
        Some(Ok("WECHAT_TOKEN=token-from-file\nAPP_BIND_ADDR=127.0.0.1:9999\n".to_string())),
        &Vec::new(),
    )
    .unwrap()
    .unwrap();

    assert_eq!(runtime.secrets.wechat_token.as_deref(), Some("token-from-file"));
    assert_eq!(runtime.app.bind_addr, "127.0.0.1:18081");
}

#[test]
fn help_returns_no_runtime_config() {
    let runtime = runtime_config_from_args(&args(&["sage-wiki-bridge", "--help"]), None, &Vec::new()).unwrap();

    assert!(runtime.is_none());
}

#[test]
fn version_returns_no_runtime_config() {
    let runtime = runtime_config_from_args(&args(&["sage-wiki-bridge", "--version"]), None, &Vec::new()).unwrap();

    assert!(runtime.is_none());
}

#[test]
fn parses_status_command() {
    let cli = CliConfig::parse(&args(&["sage-wiki-bridge", "status"])).unwrap();

    assert_eq!(cli.command, Some(CliCommand::Status));
}

#[test]
fn parses_operations_commands() {
    assert_eq!(
        CliConfig::parse(&args(&["sage-wiki-bridge", "doctor"])).unwrap().command,
        Some(CliCommand::Doctor)
    );
    assert_eq!(
        CliConfig::parse(&args(&["sage-wiki-bridge", "health"])).unwrap().command,
        Some(CliCommand::Health)
    );
    assert_eq!(
        CliConfig::parse(&args(&["sage-wiki-bridge", "ready"])).unwrap().command,
        Some(CliCommand::Ready)
    );
}

#[test]
fn env_file_supports_bridge_prefixed_aliases() {
    let report = runtime_config_report_from_args(
        &args(&["sage-wiki-bridge", "--env-file", "/tmp/bridge.env"]),
        Some(Ok(
            "BRIDGE_BIND_ADDR=127.0.0.1:19090\nBRIDGE_WECHAT_TOKEN=token-from-bridge-prefix\n"
                .to_string(),
        )),
        &Vec::new(),
    )
    .unwrap()
    .unwrap();

    assert_eq!(report.runtime.app.bind_addr, "127.0.0.1:19090");
    assert_eq!(
        report.runtime.secrets.wechat_token.as_deref(),
        Some("token-from-bridge-prefix")
    );
    let bind_addr = report
        .entries
        .iter()
        .find(|entry| entry.key == "APP_BIND_ADDR")
        .unwrap();
    assert!(bind_addr.source.contains("BRIDGE_BIND_ADDR"));
}

#[test]
fn config_report_tracks_sources() {
    let report = runtime_config_report_from_args(
        &args(&["sage-wiki-bridge", "--bind-addr", "0.0.0.0:18080"]),
        None,
        &Vec::new(),
    )
    .unwrap()
    .unwrap();

    let bind_addr = report
        .entries
        .iter()
        .find(|entry| entry.key == "APP_BIND_ADDR")
        .unwrap();
    let database_url = report
        .entries
        .iter()
        .find(|entry| entry.key == "DATABASE_URL")
        .unwrap();

    assert_eq!(bind_addr.value, "0.0.0.0:18080");
    assert_eq!(bind_addr.source, "cli");
    assert_eq!(database_url.value, "sqlite://data/bridge.sqlite3");
    assert_eq!(database_url.source, "default");
}

#[test]
fn app_config_uses_conservative_defaults() {
    let config = config_from_pairs(&[]).unwrap();

    assert_eq!(config.bind_addr, "127.0.0.1:8080");
    assert_eq!(config.database_url, "sqlite://data/bridge.sqlite3");
    assert_eq!(config.processed_artifact_dir, "data/processed");
    assert_eq!(config.callback_path, "/wechat/callback");
    assert_eq!(config.log_filter, "info,sage_wiki_bridge=debug");
    assert!(!config.encrypted_callback_enabled);
    assert!(!config.honeypot_reply_enabled);
    assert_eq!(config.honeypot_reply_text, "Message received.");
    assert_eq!(config.whitelist_join_command, None);
    assert!(config.worker_enabled);
    assert_eq!(config.worker_interval_ms, 1000);
    assert_eq!(config.worker_processing_timeout_secs, 15 * 60);
    assert_eq!(config.source_dir, "source");
    assert_eq!(config.source_log_dir, "data/source-log");
}

#[test]
fn app_config_parses_overrides() {
    let config = config_from_pairs(&[
        ("APP_BIND_ADDR", "0.0.0.0:18080"),
        ("RAW_ARCHIVE_FULL", "false"),
        ("WECHAT_ENCRYPTED_CALLBACK_ENABLED", "true"),
        ("HONEYPOT_REPLY_ENABLED", "true"),
        ("HONEYPOT_REPLY_TEXT", "收到"),
        ("WORKER_INTERVAL_MS", "250"),
        ("WORKER_PROCESSING_TIMEOUT_SECONDS", "120"),
        ("WHITELIST_JOIN_COMMAND", "/sage-wiki-join"),
        ("LLM_IMAGE_SYSTEM_PROMPT", "看图总结"),
        ("TENCENT_LBS_RADIUS_METERS", "500"),
    ])
    .unwrap();

    assert_eq!(config.bind_addr, "0.0.0.0:18080");
    assert!(!config.raw_archive_full);
    assert!(config.encrypted_callback_enabled);
    assert!(config.honeypot_reply_enabled);
    assert_eq!(config.honeypot_reply_text, "收到");
    assert_eq!(config.worker_interval_ms, 250);
    assert_eq!(config.worker_processing_timeout_secs, 120);
    assert_eq!(config.whitelist_join_command.as_deref(), Some("/sage-wiki-join"));
    assert_eq!(config.llm_image_system_prompt, "看图总结");
    assert_eq!(config.tencent_lbs_radius_meters, Some(500));
}

#[test]
fn app_config_rejects_bad_bool() {
    let err = config_from_pairs(&[("WORKER_ENABLED", "maybe")]).unwrap_err();

    assert!(matches!(err, BridgeError::Config(_)));
}

#[test]
fn parses_list_env_values() {
    assert_eq!(
        parse_list_env(Some("openid-1, openid-2\nopenid-3;openid-4")),
        vec!["openid-1", "openid-2", "openid-3", "openid-4"]
    );
    assert!(parse_list_env(None).is_empty());
}

#[test]
fn bad_number_names_its_key() {
    let err = config_from_pairs(&[("DATABASE_MAX_CONNECTIONS", "many")]).unwrap_err();
    assert_eq!(err.describe(), "configuration error: DATABASE_MAX_CONNECTIONS must be a positive integer");
}

#[test]
fn first_bad_setting_in_field_order_is_reported() {
    let err = config_from_pairs(&[("ADMIN_MAX_PER_PAGE", "x"), ("RAW_ARCHIVE_FULL", "perhaps")]).unwrap_err();
    assert_eq!(err.describe(), "configuration error: RAW_ARCHIVE_FULL must be a boolean");
}

#[test]
fn blank_values_take_defaults_and_bools_accept_words() {
    let config = config_from_pairs(&[("APP_BIND_ADDR", "   "), ("WORKER_ENABLED", " OFF "), ("RAW_ARCHIVE_FULL", "yes")]).unwrap();
    assert_eq!(config.bind_addr, "127.0.0.1:8080");
    assert!(!config.worker_enabled);
    assert!(config.raw_archive_full);
}

#[test]
fn later_pairs_override_earlier_ones() {
    let config = config_from_pairs(&[("GEMINI_MODEL", "a"), ("GEMINI_MODEL", "b")]).unwrap();
    assert_eq!(config.gemini_model, "b");
}

#[test]
fn unknown_option_and_missing_value_are_errors() {
    let err = CliConfig::parse(&args(&["bin", "--no-such-flag", "x"])).unwrap_err();
    assert_eq!(err.describe(), "configuration error: unknown option: --no-such-flag");
    let err = CliConfig::parse(&args(&["bin", "--bind-addr"])).unwrap_err();
    assert_eq!(err.describe(), "configuration error: --bind-addr requires a value");
    let err = CliConfig::parse(&args(&["bin", "--bind-addr", "--worker-id"])).unwrap_err();
    assert_eq!(err.describe(), "configuration error: --bind-addr requires a value");
    let err = CliConfig::parse(&args(&["bin", "status", "doctor"])).unwrap_err();
    assert_eq!(err.describe(), "configuration error: unexpected argument: doctor");
}

#[test]
fn a_flag_value_is_not_read_as_an_argument() {
    let cli = CliConfig::parse(&args(&["bin", "--worker-id", "status", "doctor"])).unwrap();
    assert_eq!(cli.command, Some(CliCommand::Doctor));
    assert_eq!(cli.values, vec![("WORKER_ID".to_string(), "status".to_string())]);
    let err = CliConfig::parse(&args(&["bin", "--env-file"])).unwrap_err();
    assert_eq!(err.describe(), "configuration error: --env-file requires a value");
    let err = CliConfig::parse(&args(&["bin", "-x"])).unwrap_err();
    assert_eq!(err.describe(), "configuration error: unexpected argument: -x");
}

#[test]
fn inline_flag_values_and_aliases() {
    let cli = CliConfig::parse(&args(&["bin", "--bind-addr=1.2.3.4:5", "--wechat-appid", "wx1", "-V"])).unwrap();
    assert!(cli.verbose_version);
    assert_eq!(
        cli.values,
        vec![
            ("APP_BIND_ADDR".to_string(), "1.2.3.4:5".to_string()),
            ("WECHAT_APP_ID".to_string(), "wx1".to_string())
        ]
    );
}

#[test]
fn process_env_is_read_only_when_asked_and_env_file_wins_over_it() {
    let env = pairs(&[("APP_BIND_ADDR", "10.0.0.1:1"), ("WORKER_ID", "from-env"), ("HEALTHZ_PATH", "  ")]);
    let ignored = runtime_config_from_args(&args(&["bin"]), None, &env).unwrap().unwrap();
    assert_eq!(ignored.app.worker_id, "worker-main");
    let report = runtime_config_report_from_args(
        &args(&["bin", "--use-process-env", "--env-file", "f.env"]),
        Some(Ok("WORKER_ID=from-file\n".to_string())),
        &env,
    )
    .unwrap()
    .unwrap();
    assert_eq!(report.runtime.app.bind_addr, "10.0.0.1:1");
    assert_eq!(report.runtime.app.worker_id, "from-file");
    assert_eq!(report.runtime.app.healthz_path, "/healthz");
    let worker = report.entries.iter().find(|e| e.key == "WORKER_ID").unwrap();
    assert_eq!(worker.source, "env-file:f.env");
    let bind = report.entries.iter().find(|e| e.key == "APP_BIND_ADDR").unwrap();
    assert_eq!(bind.source, "process-env");
}

#[test]
fn env_file_errors_name_their_line() {
    let err = parse_env_file("a.env", "# comment\n\nKEY=1\nbroken line\n").unwrap_err();
    assert_eq!(err.describe(), "configuration error: invalid env file a.env line 4: missing '='");
    let err = parse_env_file("a.env", "BAD-KEY=1").unwrap_err();
    assert_eq!(err.describe(), "configuration error: invalid env file a.env line 1: invalid key");
    let ok = parse_env_file("a.env", "A = \"quoted value\"\r\nB='x'\nC=\"\n").unwrap();
    assert_eq!(
        ok,
        vec![
            ("A".to_string(), "quoted value".to_string()),
            ("B".to_string(), "x".to_string()),
            ("C".to_string(), "\"".to_string())
        ]
    );
}

#[test]
fn unreadable_env_file_is_reported() {
    let err = runtime_config_from_args(&args(&["bin", "--env-file", "x.env"]), Some(Err("denied".to_string())), &Vec::new()).unwrap_err();
    assert_eq!(err.describe(), "configuration error: failed to read env file x.env: denied");
}

#[test]
fn secrets_are_redacted_in_the_report() {
    let report = runtime_config_report_from_args(
        &args(&["bin", "--wechat-token", "秘密", "--wechat-admin-openids", "a,b;c"]),
        None,
        &Vec::new(),
    )
    .unwrap()
    .unwrap();
    let token = report.entries.iter().find(|e| e.key == "WECHAT_TOKEN").unwrap();
    assert_eq!(token.value, "<redacted:6>");
    assert!(token.secret);
    let ids = report.entries.iter().find(|e| e.key == "WECHAT_ADMIN_OPENIDS").unwrap();
    assert_eq!(ids.value, "<redacted:3>");
    let key = report.entries.iter().find(|e| e.key == "GEMINI_API_KEY").unwrap();
    assert_eq!(key.value, "");
    assert_eq!(report.entries.len(), 53);
}

#[test]
fn require_wechat_token_refuses_empty() {
    let runtime = runtime_config_from_args(&args(&["bin"]), None, &Vec::new()).unwrap().unwrap();
    let err = runtime.secrets.require_wechat_token().unwrap_err();
    assert_eq!(err.describe(), "configuration error: WECHAT_TOKEN is required");
    let runtime = runtime_config_from_args(&args(&["bin", "--wechat-token", "t"]), None, &Vec::new()).unwrap().unwrap();
    assert_eq!(runtime.secrets.require_wechat_token().unwrap(), "t");
}

#[test]
fn help_text_documents_defaults() {
    let help = CliConfig::help_text();

    assert!(help.contains("--bind-addr VALUE\n      Default: 127.0.0.1:8080"));
    assert!(help.contains("--database-url VALUE\n      Default: sqlite://data/bridge.sqlite3"));
    assert!(help.contains("--sage-wiki-source-log-dir VALUE\n      Default: data/source-log"));
    assert!(help.contains("--worker-enabled true|false\n      Default: true"));
    assert!(help.contains("--wechat-token VALUE\n      Default: none."));
    assert!(help.contains("--whitelist-join-command VALUE\n      Default: empty."));
    assert!(help.contains(&format!(
        "--bridge-version VALUE\n      Default: {}",
        package_version()
    )));
}

#[test]
fn help_text_has_no_version_placeholder_left() {
    let help = CliConfig::help_text();
    assert!(!help.contains("{CARGO_PKG_VERSION}"));
    assert!(help.starts_with("sage-wiki-bridge\n\nUsage:\n"));
    assert!(help.ends_with("--jina-reader-endpoint VALUE\n      Default: https://r.jina.ai\n"));
}

#[test]
fn command_line_actions_follow_precedence() {
    let action = |values: &[&str]| CliConfig::parse(&args(values)).unwrap().action();
    assert_eq!(action(&["bridge"]), CliAction::Serve);
    assert_eq!(action(&["bridge", "--help", "status"]), CliAction::PrintHelp);
    assert_eq!(action(&["bridge", "--version", "-V"]), CliAction::PrintVersion);
    assert_eq!(action(&["bridge", "version"]), CliAction::PrintVersion);
    assert_eq!(action(&["bridge", "-V", "status"]), CliAction::PrintVerboseVersion);
    assert_eq!(action(&["bridge", "status"]), CliAction::Status);
    assert_eq!(action(&["bridge", "doctor"]), CliAction::Doctor);
    assert_eq!(action(&["bridge", "health"]), CliAction::Health);
    assert_eq!(action(&["bridge", "ready"]), CliAction::Ready);
}

#[test]
fn config_entry_lines_mark_secrets() {
    let plain = ConfigReportEntry {
        key: "BIND_ADDR".to_string(),
        flag: "--bind-addr".to_string(),
        value: "0.0.0.0:18080".to_string(),
        source: "cli".to_string(),
        secret: false,
    };
    assert_eq!(
        config_entry_line(&plain),
        "  BIND_ADDR = 0.0.0.0:18080  # flag: --bind-addr, source: cli"
    );
    let secret = ConfigReportEntry {
        key: "WECHAT_TOKEN".to_string(),
        flag: "--wechat-token".to_string(),
        value: "<redacted:5>".to_string(),
        source: "default".to_string(),
        secret: true,
    };
    assert_eq!(
        config_entry_line(&secret),
        "  WECHAT_TOKEN = <redacted:5>  # flag: --wechat-token, source: default, redacted"
    );
}

#[test]
fn report_lists_each_key_once_and_flags_only_secrets() {
    let report = runtime_config_report_from_args(&args(&["bin", "--wechat-token", "t"]), None, &Vec::new())
        .unwrap()
        .unwrap();
    let keys: std::collections::HashSet<&str> = report.entries.iter().map(|e| e.key.as_str()).collect();
    assert_eq!(report.entries.len(), 53);
    assert_eq!(keys.len(), 53);
    let secret: Vec<&str> = report.entries.iter().filter(|e| e.secret).map(|e| e.key.as_str()).collect();
    assert_eq!(
        secret,
        vec![
            "WECHAT_TOKEN", "WECHAT_APP_ID", "WECHAT_APP_SECRET", "WECHAT_ENCODING_AES_KEY", "ADMIN_VIEW_KEY",
            "GEMINI_API_KEY", "OPENAI_API_KEY", "ANTHROPIC_API_KEY", "TENCENT_LBS_KEY", "JINA_API_KEY",
            "WECHAT_ADMIN_OPENIDS",
        ]
    );
    let token = report.entries.iter().find(|e| e.key == "WECHAT_TOKEN").unwrap();
    assert_eq!(token.source, "cli");
    let db = report.entries.iter().find(|e| e.key == "DATABASE_URL").unwrap();
    assert_eq!(db.source, "default");
}

#[test]
fn process_env_is_ignored_without_the_flag() {
    let a = runtime_config_report_from_args(&args(&["bin"]), None, &pairs(&[("APP_BIND_ADDR", "1.2.3.4:1")]))
        .unwrap()
        .unwrap();
    let b = runtime_config_report_from_args(&args(&["bin"]), None, &pairs(&[("APP_BIND_ADDR", "5.6.7.8:2")]))
        .unwrap()
        .unwrap();
    assert_eq!(a.runtime, b.runtime);
    assert_eq!(a.runtime.app.bind_addr, "127.0.0.1:8080");
}
