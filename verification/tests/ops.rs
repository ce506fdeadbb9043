use sage_wiki_bridge::config::runtime_config_report_from_args;
use sage_wiki_bridge::llm::{gemini_inline_data, gemini_output, GeminiConfig};
use sage_wiki_bridge::media::{download_step, downloaded_media, media_query, token_is_fresh, WechatApiConfig};
use sage_wiki_bridge::ops::{
    dir_line, doctor_outcome, doctor_plan, external_client_settings, local_url, media_processor_settings,
    required_line, sqlite_database_parent, sqlite_dir_to_create, DirState,
};
use sage_wiki_bridge::status::{
    build_service_status, grouped_count_lines, memory_rss_bytes, status_report_lines, status_snapshot_lines,
    verbose_version_lines, ProcessInfo, RuntimeChecks, StatusContext,
};
use sage_wiki_bridge::store::{list_messages_sql, plan_message_list, MessageListQuery, StatusSnapshot};

fn report(args: &[&str]) -> sage_wiki_bridge::config::RuntimeConfigReport {
    let args: Vec<String> = args.iter().map(|a| a.to_string()).collect();
    runtime_config_report_from_args(&args, None, &Vec::new()).unwrap().unwrap()
}

#[test]
fn local_urls_use_loopback_for_wildcard_binds() {
    let r = report(&["bin", "--bind-addr", "0.0.0.0:8087"]);
    assert_eq!(local_url(&r.runtime.app, "/healthz"), "http://127.0.0.1:8087/healthz");
    let r = report(&["bin"]);
    assert_eq!(local_url(&r.runtime.app, "/readyz"), "http://127.0.0.1:8080/readyz");
}

#[test]
fn sqlite_parent_directories() {
    assert_eq!(sqlite_database_parent("sqlite://data/bridge.sqlite3").as_deref(), Some("data"));
    assert_eq!(sqlite_database_parent("postgres://x/y"), None);
    assert_eq!(sqlite_dir_to_create("sqlite://data/bridge.sqlite3").as_deref(), Some("data"));
    assert_eq!(sqlite_dir_to_create("sqlite://:memory:"), None);
    assert_eq!(sqlite_dir_to_create("sqlite://bridge.sqlite3"), None);
}

#[test]
fn doctor_checks_required_settings_and_directories() {
    let r = report(&["bin", "--wechat-token", "t", "--wechat-encrypted-callback-enabled", "true"]);
    let plan = doctor_plan(&r, Some(".env"));
    assert_eq!(plan.header[0], "sage-wiki-bridge doctor");
    assert_eq!(plan.header[2], "env_file: .env");
    assert_eq!(plan.header[6], "health_url: http://127.0.0.1:8080/healthz");
    let names: Vec<(&str, bool)> = plan.required.iter().map(|c| (c.name.as_str(), c.ok)).collect();
    assert_eq!(
        names,
        vec![("WECHAT_TOKEN", true), ("WECHAT_ADMIN_OPENIDS", false), ("ADMIN_VIEW_KEY", false), ("WECHAT_ENCODING_AES_KEY", false)]
    );
    assert_eq!(plan.dirs.len(), 4);
    assert_eq!(plan.dirs[3].path, "data");
    assert!(!plan.dirs[0].create && plan.dirs[1].create);
    assert_eq!(required_line("ADMIN_VIEW_KEY", false), "error: ADMIN_VIEW_KEY is required");
    assert_eq!(dir_line("raw archive dir", "data/raw", DirState::Writable), ("ok: raw archive dir exists and is writable: data/raw".to_string(), true));
    assert!(!dir_line("x", "y", DirState::Missing).1);
    assert!(doctor_outcome(true).is_err());
    assert!(doctor_outcome(false).is_ok());
}

#[test]
fn outside_clients_need_their_keys() {
    let r = report(&["bin", "--wechat-app-id", "wx", "--wechat-app-secret", "s"]);
    assert_eq!(media_processor_settings(&r.runtime.app, &r.runtime.secrets).unwrap_err(), "GEMINI_API_KEY");
    let no_secret = report(&["bin", "--wechat-app-id", "wx", "--gemini-api-key", "g"]);
    assert_eq!(media_processor_settings(&no_secret.runtime.app, &no_secret.runtime.secrets).unwrap_err(), "WECHAT_APP_SECRET");
    let no_id = report(&["bin", "--gemini-api-key", "g"]);
    assert_eq!(media_processor_settings(&no_id.runtime.app, &no_id.runtime.secrets).unwrap_err(), "WECHAT_APP_ID");
    assert!(external_client_settings(&r.runtime.app, &r.runtime.secrets).is_none());
    let r = report(&["bin", "--wechat-app-id", "wx", "--wechat-app-secret", "s", "--gemini-api-key", "g", "--tencent-lbs-key", "lbs"]);
    let media = media_processor_settings(&r.runtime.app, &r.runtime.secrets).unwrap();
    assert_eq!(media.gemini.api_key, "g");
    assert_eq!(media.prompts.image_prompt, "Describe this image for a personal knowledge base.");
    let clients = external_client_settings(&r.runtime.app, &r.runtime.secrets).unwrap();
    assert_eq!(clients.lbs.key, "lbs");
    assert_eq!(clients.jina.endpoint, "https://r.jina.ai");
}

#[test]
fn status_report_is_assembled() {
    let r = report(&["bin", "--admin-base-path", "/ops"]);
    let context = StatusContext::from_report(&r, "2026-05-27T00:00:00Z");
    let snapshot = StatusSnapshot {
        total_messages: 1,
        authorized_messages: 1,
        failed_messages: 0,
        source_written_messages: 0,
        total_jobs: 0,
        total_job_attempts: 0,
        retry_attempts: 0,
        processed_text_bytes: 0,
        source_bytes_written: 0,
        messages_by_status: Vec::new(),
        messages_by_type: Vec::new(),
        jobs_by_status: Vec::new(),
    };
    let checks = RuntimeChecks {
        database_ready: true,
        source_dir_exists: false,
        source_dir_writable: false,
        source_log_dir_exists: false,
        source_log_dir_writable: false,
        raw_archive_dir_exists: false,
        raw_archive_dir_writable: false,
        processed_artifact_dir_exists: false,
        processed_artifact_dir_writable: false,
    };
    let process = ProcessInfo { pid: 1, os: "linux".to_string(), arch: "x86_64".to_string(), current_working_dir: None, memory_rss_bytes: None };
    let status = build_service_status(&context, 5, process, snapshot, checks);
    assert_eq!(status.endpoints.status_path, "/ops/status");
    assert_eq!(status.service.package_version, "0.4.1");
    assert_eq!(status.service.uptime_seconds, 5);
    assert_eq!(status.config.len(), r.entries.len());
    assert_eq!(status.usage.token_usage_status, "not_tracked");
}

#[test]
fn resident_memory_is_read_from_vmrss() {
    assert_eq!(memory_rss_bytes("Name:\tbridge\nVmRSS:\t   2048 kB\nVmSwap: 0 kB\n"), Some(2048 * 1024));
    assert_eq!(memory_rss_bytes("VmRSS:\n"), None);
    assert_eq!(memory_rss_bytes("VmRSS: x kB\nVmRSS: 4 kB"), Some(4096));
}

#[test]
fn message_list_plan_bounds_the_page() {
    let plan = plan_message_list(&MessageListQuery { page: 0, per_page: 500, keyword: Some("hi".to_string()), sort_desc: true });
    assert_eq!(plan.page, 1);
    assert_eq!(plan.per_page, 100);
    assert_eq!(plan.offset, 0);
    assert_eq!(plan.keyword_like.as_deref(), Some("%hi%"));
    assert!(plan.sql.contains("ORDER BY received_at DESC, id DESC"));
    assert!(plan.sql.contains("LIMIT ?2 OFFSET ?3"));
    let plan = plan_message_list(&MessageListQuery { page: 3, per_page: 10, keyword: Some(String::new()), sort_desc: false });
    assert_eq!(plan.offset, 20);
    assert!(plan.keyword_like.is_none());
    assert_eq!(plan.sql, list_messages_sql("ASC", false));
    assert!(plan.sql.contains("LIMIT ?1 OFFSET ?2"));
}

#[test]
fn media_api_requests() {
    let api = WechatApiConfig { api_base: "https://api.weixin.qq.com/".to_string(), app_id: "wx".to_string(), app_secret: "s".to_string() };
    assert_eq!(api.token_url(), "https://api.weixin.qq.com/cgi-bin/token");
    assert_eq!(api.media_url(), "https://api.weixin.qq.com/cgi-bin/media/get");
    assert_eq!(api.token_query()[0], ("grant_type".to_string(), "client_credential".to_string()));
    assert_eq!(media_query("t", "m")[1], ("media_id".to_string(), "m".to_string()));
    assert_eq!(download_step(10, 5, 16).unwrap(), 15);
    let err = download_step(10, 7, 16).unwrap_err();
    assert_eq!(err.describe(), "external payload invalid: media exceeds max size 16");
}

#[test]
fn gemini_requests() {
    let g = GeminiConfig { endpoint_base: "https://g.test/".to_string(), api_key: "k".to_string(), model: "m".to_string(), max_inline_bytes: 10 };
    assert_eq!(g.generate_url(), "https://g.test/v1beta/models/m:generateContent?key=k");
    assert!(g.check_inline_size(10).is_ok());
    assert_eq!(g.check_inline_size(11).unwrap_err().describe(), "external payload invalid: media exceeds Gemini inline limit 10");
}

fn sample_snapshot() -> StatusSnapshot {
    StatusSnapshot {
        total_messages: 3,
        authorized_messages: 2,
        failed_messages: -1,
        source_written_messages: 1,
        total_jobs: 2,
        total_job_attempts: 4,
        retry_attempts: 2,
        processed_text_bytes: 120,
        source_bytes_written: 800,
        messages_by_status: vec![("queued".to_string(), 2), ("ignored".to_string(), 1)],
        messages_by_type: Vec::new(),
        jobs_by_status: vec![("done".to_string(), 2)],
    }
}

#[test]
fn grouped_counts_print_each_key_or_empty() {
    assert_eq!(grouped_count_lines(&Vec::new()), vec!["    <empty>: 0".to_string()]);
    assert_eq!(
        grouped_count_lines(&vec![("text".to_string(), 7), ("image".to_string(), -2)]),
        vec!["    text: 7".to_string(), "    image: -2".to_string()]
    );
}

#[test]
fn snapshot_lines_list_counters_then_groups() {
    let lines = status_snapshot_lines(&sample_snapshot());
    assert_eq!(lines[0], "  total_messages: 3");
    assert_eq!(lines[2], "  failed_messages: -1");
    assert_eq!(lines[8], "  source_bytes_written: 800");
    assert_eq!(lines[9], "  token_usage: not_tracked");
    assert_eq!(lines[10], "  messages_by_status:");
    assert_eq!(lines[11], "    queued: 2");
    assert_eq!(lines[12], "    ignored: 1");
    assert_eq!(lines[13], "  messages_by_type:");
    assert_eq!(lines[14], "    <empty>: 0");
    assert_eq!(lines[15], "  jobs_by_status:");
    assert_eq!(lines[16], "    done: 2");
    assert_eq!(lines.len(), 17);
}

#[test]
fn status_command_lines_follow_the_report() {
    let r = report(&["bin", "--bind-addr", "0.0.0.0:9000"]);
    let context = StatusContext::from_report(&r, "2026-05-27T00:00:00Z");
    let checks = RuntimeChecks {
        database_ready: true,
        source_dir_exists: true,
        source_dir_writable: true,
        source_log_dir_exists: true,
        source_log_dir_writable: true,
        raw_archive_dir_exists: true,
        raw_archive_dir_writable: false,
        processed_artifact_dir_exists: true,
        processed_artifact_dir_writable: true,
    };
    let process = ProcessInfo { pid: 42, os: "linux".to_string(), arch: "x86_64".to_string(), current_working_dir: None, memory_rss_bytes: Some(4096) };
    let status = build_service_status(&context, 1, process, sample_snapshot(), checks);
    let lines = status_report_lines(&status);
    assert_eq!(lines[0], "sage-wiki-bridge status");
    assert_eq!(lines[3], "  package_version: 0.4.1");
    assert_eq!(lines[4], "  status_command_pid: 42");
    assert_eq!(lines[5], "  memory_rss_bytes: Some(4096)");
    assert_eq!(lines[7], "  bind_addr: 0.0.0.0:9000");
    assert_eq!(lines[8], "  worker_enabled: true");
    assert_eq!(lines[10], "  admin_status_path: /admin/status");
    assert_eq!(lines[11], "config:");
    let n = r.entries.len();
    assert!(lines[12].starts_with("  APP_BIND_ADDR = 0.0.0.0:9000  # flag: --bind-addr, source: cli"));
    assert_eq!(lines[12 + n], "runtime_checks:");
    assert_eq!(lines[14 + n], "  source_dir_writable: true");
    assert_eq!(lines[15 + n], "  raw_archive_dir_writable: false");
    assert_eq!(lines[17 + n], "metrics:");
    assert_eq!(lines.len(), 18 + n + 17);
}

#[test]
fn verbose_version_lines_name_the_build() {
    let r = report(&["bin"]);
    let lines = verbose_version_lines(&r.entries, "x86_64", "linux");
    assert_eq!(lines[0], "sage-wiki-bridge 0.4.1");
    assert_eq!(lines[1], "build:");
    assert_eq!(lines[2], "  package_version: 0.4.1");
    assert_eq!(lines[3], "  target: x86_64");
    assert_eq!(lines[4], "  os: linux");
    assert_eq!(lines[5], "config:");
    assert_eq!(lines.len(), 6 + r.entries.len());
}

#[test]
fn gemini_answers_join_text_parts() {
    let candidates = vec![
        vec![Some(" first".to_string()), None, Some("second".to_string())],
        vec![Some("third \n".to_string())],
    ];
    let out = gemini_output("gemini-test", &candidates).unwrap();
    assert_eq!(out.provider, "gemini");
    assert_eq!(out.model, "gemini-test");
    assert_eq!(out.text, "first\nsecond\nthird");
    let err = gemini_output("m", &vec![vec![None], vec![Some("  ".to_string())]]).unwrap_err();
    assert_eq!(err.describe(), "external payload invalid: Gemini response contained no text");
    assert!(gemini_output("m", &Vec::new()).is_err());
}

#[test]
fn access_tokens_are_refreshed_before_they_expire() {
    assert!(token_is_fresh(1000, 7200, 300, 1000));
    assert!(token_is_fresh(1000, 7200, 300, 7899));
    assert!(!token_is_fresh(1000, 7200, 300, 7900));
    assert!(!token_is_fresh(1000, 7200, 300, 9000));
    assert!(!token_is_fresh(u64::MAX, u64::MAX, u64::MAX, u64::MAX));
    assert!(token_is_fresh(u64::MAX, u64::MAX, 0, u64::MAX));
}

#[test]
fn gemini_inline_data_is_standard_base64() {
    assert_eq!(gemini_inline_data(b"hello"), "aGVsbG8=");
    assert_eq!(gemini_inline_data(&[0xfb, 0xff]), "+/8=");
    assert_eq!(gemini_inline_data(b""), "");
}

#[test]
fn downloaded_media_records_size_and_digest() {
    let media = downloaded_media("data/raw/k/media.original.jpg".to_string(), Some("image/jpeg".to_string()), b"abc");
    assert_eq!(media.size_bytes, 3);
    assert_eq!(media.sha256, "ba7816bf8f01cfea414140de5dae2223b00361a396177a9cb410ff61f20015ad");
    assert_eq!(media.path, "data/raw/k/media.original.jpg");
    assert_eq!(media.content_type.as_deref(), Some("image/jpeg"));
}
