//! The status report of a running bridge, and reading the resident memory
//! of the process from the kernel's process status text.
//!
//! Measuring time, probing directories and reading the process status are
//! left to the caller, which hands their results in.
use vstd::prelude::*;

use crate::config::app::AppConfig;
use crate::config::app::strings_view;
use crate::config::report::{
    bool_string, bool_text, config_entry_lines, entries_view, entry_lines_spec, ConfigReportEntry,
    EntryView,
};
use crate::config::RuntimeConfigReport;
use crate::store::StatusSnapshot;
use crate::text::{
    chars_of, dec_spec, i64_to_dec, is_whitespace, push_str, signed_dec_spec, string_from,
    string_of_range, trim, u64_to_dec,
};

verus! {

/// What the status report needs to know of the configuration, and when the
/// bridge started.
#[derive(Debug, Clone, PartialEq, Eq)]
pub struct StatusContext {
    pub started_at: String,
    pub bind_addr: String,
    pub database_url: String,
    pub worker_enabled: bool,
    pub callback_path: String,
    pub healthz_path: String,
    pub readyz_path: String,
    pub admin_base_path: String,
    pub source_dir: String,
    pub source_log_dir: String,
    pub raw_archive_dir: String,
    pub processed_artifact_dir: String,
    pub entries: Vec<ConfigReportEntry>,
}

/// The status context of a configuration.
pub open spec fn context_matches(c: StatusContext, config: AppConfig, started_at: Seq<char>) -> bool {
    &&& c.started_at@ == started_at
    &&& c.bind_addr@ == config.bind_addr@
    &&& c.database_url@ == config.database_url@
    &&& c.worker_enabled == config.worker_enabled
    &&& c.callback_path@ == config.callback_path@
    &&& c.healthz_path@ == config.healthz_path@
    &&& c.readyz_path@ == config.readyz_path@
    &&& c.admin_base_path@ == config.admin_base_path@
    &&& c.source_dir@ == config.source_dir@
    &&& c.source_log_dir@ == config.source_log_dir@
    &&& c.raw_archive_dir@ == config.raw_archive_dir@
    &&& c.processed_artifact_dir@ == config.processed_artifact_dir@
}

/// A copy of report lines.
fn copy_entries(entries: &Vec<ConfigReportEntry>) -> (r: Vec<ConfigReportEntry>)
    ensures
        entries_view(r@) == entries_view(entries@),
{
    let mut out: Vec<ConfigReportEntry> = Vec::new();
    let mut i: usize = 0;
    while i < entries.len()
        invariant
            i <= entries.len(),
            out@.len() == i,
            forall|j: int| 0 <= j < i ==> #[trigger] out@[j]@ == entries@[j]@,
        decreases entries.len() - i,
    {
        let e = &entries[i];
        out.push(
            ConfigReportEntry {
                key: string_from(e.key.as_str()),
                flag: string_from(e.flag.as_str()),
                value: string_from(e.value.as_str()),
                source: string_from(e.source.as_str()),
                secret: e.secret,
            },
        );
        i += 1;
    }
    assert(entries_view(out@) =~= entries_view(entries@));
    out
}

impl StatusContext {
    /// The context of a resolved configuration with its report; `started_at`
    /// is the start time as RFC 3339 text.
    pub fn from_report(report: &RuntimeConfigReport, started_at: &str) -> (r: StatusContext)
        ensures
            context_matches(r, report.runtime.app, started_at@),
            entries_view(r.entries@) == entries_view(report.entries@),
    {
        let entries = copy_entries(&report.entries);
        StatusContext::from_config_and_entries(&report.runtime.app, entries, started_at)
    }

    /// The context of a configuration and its report lines.
    pub fn from_config_and_entries(config: &AppConfig, entries: Vec<ConfigReportEntry>, started_at: &str) -> (r: StatusContext)
        ensures
            context_matches(r, *config, started_at@),
            r.entries == entries,
    {
        StatusContext {
            started_at: string_from(started_at),
            bind_addr: string_from(config.bind_addr.as_str()),
            database_url: string_from(config.database_url.as_str()),
            worker_enabled: config.worker_enabled,
            callback_path: string_from(config.callback_path.as_str()),
            healthz_path: string_from(config.healthz_path.as_str()),
            readyz_path: string_from(config.readyz_path.as_str()),
            admin_base_path: string_from(config.admin_base_path.as_str()),
            source_dir: string_from(config.source_dir.as_str()),
            source_log_dir: string_from(config.source_log_dir.as_str()),
            raw_archive_dir: string_from(config.raw_archive_dir.as_str()),
            processed_artifact_dir: string_from(config.processed_artifact_dir.as_str()),
            entries,
        }
    }
}

/// The service part of the report.
#[derive(Debug, Clone, PartialEq, Eq)]
pub struct ServiceInfo {
    pub package_version: String,
    pub started_at: String,
    pub uptime_seconds: u64,
    pub bind_addr: String,
    pub database_url: String,
    pub worker_enabled: bool,
}

/// The process part of the report.
#[derive(Debug, Clone, PartialEq, Eq)]
pub struct ProcessInfo {
    pub pid: u32,
    pub os: String,
    pub arch: String,
    pub current_working_dir: Option<String>,
    pub memory_rss_bytes: Option<u64>,
}

/// The endpoints of the service.
#[derive(Debug, Clone, PartialEq, Eq)]
pub struct EndpointInfo {
    pub callback_path: String,
    pub healthz_path: String,
    pub readyz_path: String,
    pub admin_base_path: String,
    pub status_path: String,
}

/// What the directories and the database looked like.
#[derive(Debug, Clone, Copy, PartialEq, Eq, Structural)]
pub struct RuntimeChecks {
    pub database_ready: bool,
    pub source_dir_exists: bool,
    pub source_dir_writable: bool,
    pub source_log_dir_exists: bool,
    pub source_log_dir_writable: bool,
    pub raw_archive_dir_exists: bool,
    pub raw_archive_dir_writable: bool,
    pub processed_artifact_dir_exists: bool,
    pub processed_artifact_dir_writable: bool,
}

/// What is known of model token usage.
#[derive(Debug, Clone, PartialEq, Eq)]
pub struct UsageInfo {
    pub token_usage_status: String,
    pub input_tokens: Option<i64>,
    pub output_tokens: Option<i64>,
}

/// The status report of the service.
#[derive(Debug, Clone, PartialEq, Eq)]
pub struct ServiceStatusReport {
    pub service: ServiceInfo,
    pub process: ProcessInfo,
    pub endpoints: EndpointInfo,
    pub config: Vec<ConfigReportEntry>,
    pub metrics: StatusSnapshot,
    pub runtime_checks: RuntimeChecks,
    pub usage: UsageInfo,
}

/// The package version of the bridge.
pub open spec fn package_version_spec() -> Seq<char> {
    "0.4.1"@
}

/// The package version of the bridge.
pub fn package_version() -> (r: &'static str)
    ensures
        r@ == package_version_spec(),
{
    "0.4.1"
}

/// The status report from the context and what the caller measured:
/// service and endpoint facts from the context (the status page under the
/// admin path), the configuration report, the store counters, the process,
/// the checks, and token usage as not tracked.
pub fn build_service_status(
    context: &StatusContext,
    uptime_seconds: u64,
    process: ProcessInfo,
    metrics: StatusSnapshot,
    runtime_checks: RuntimeChecks,
) -> (r: ServiceStatusReport)
    ensures
        r.service.package_version@ == package_version_spec(),
        r.service.started_at@ == context.started_at@,
        r.service.uptime_seconds == uptime_seconds,
        r.service.bind_addr@ == context.bind_addr@,
        r.service.database_url@ == context.database_url@,
        r.service.worker_enabled == context.worker_enabled,
        r.process == process,
        r.endpoints.callback_path@ == context.callback_path@,
        r.endpoints.healthz_path@ == context.healthz_path@,
        r.endpoints.readyz_path@ == context.readyz_path@,
        r.endpoints.admin_base_path@ == context.admin_base_path@,
        r.endpoints.status_path@ == context.admin_base_path@ + "/status"@,
        entries_view(r.config@) == entries_view(context.entries@),
        r.metrics == metrics,
        r.runtime_checks == runtime_checks,
        r.usage.token_usage_status@ == "not_tracked"@,
        r.usage.input_tokens is None,
        r.usage.output_tokens is None,
{
    let mut status_path = string_from(context.admin_base_path.as_str());
    push_str(&mut status_path, "/status");
    let config = copy_entries(&context.entries);
    ServiceStatusReport {
        service: ServiceInfo {
            package_version: string_from(package_version()),
            started_at: string_from(context.started_at.as_str()),
            uptime_seconds,
            bind_addr: string_from(context.bind_addr.as_str()),
            database_url: string_from(context.database_url.as_str()),
            worker_enabled: context.worker_enabled,
        },
        process,
        endpoints: EndpointInfo {
            callback_path: string_from(context.callback_path.as_str()),
            healthz_path: string_from(context.healthz_path.as_str()),
            readyz_path: string_from(context.readyz_path.as_str()),
            admin_base_path: string_from(context.admin_base_path.as_str()),
            status_path,
        },
        config,
        metrics,
        runtime_checks,
        usage: UsageInfo {
            token_usage_status: string_from("not_tracked"),
            input_tokens: None,
            output_tokens: None,
        },
    }
}

/// The leading run of characters that are not white space.
pub open spec fn first_word(s: Seq<char>) -> Seq<char>
    decreases s.len(),
{
    if s.len() == 0 || crate::text::is_ws(s[0]) {
        Seq::empty()
    } else {
        seq![s[0]] + first_word(s.drop_first())
    }
}

/// The resident memory a `VmRSS:` line gives, in bytes (the kernel counts
/// kibibytes; the product wraps as 64-bit arithmetic does): its first word
/// after the label, read as a number.
pub open spec fn rss_of_line(line: Seq<char>) -> Option<int> {
    if crate::text::starts_with_spec(line, "VmRSS:"@) {
        let words = first_word(crate::text::trim_spec(line.skip(6)));
        if words.len() == 0 {
            None
        } else {
            match crate::text::parse_unsigned_spec(words, u64::MAX as nat) {
                Some(kb) => Some(((kb * 1024) % 0x1_0000_0000_0000_0000) as int),
                None => None,
            }
        }
    } else {
        None
    }
}

/// The first line that gives the resident memory.
pub open spec fn rss_of_lines(lines: Seq<Seq<char>>) -> Option<int>
    decreases lines.len(),
{
    if lines.len() == 0 {
        None
    } else {
        match rss_of_line(lines[0]) {
            Some(n) => Some(n),
            None => rss_of_lines(lines.drop_first()),
        }
    }
}

fn first_word_of(v: &Vec<char>) -> (r: String)
    ensures
        r@ == first_word(v@),
{
    let mut i: usize = 0;
    assert(v@.skip(0) == v@);
    while i < v.len() && !is_whitespace(v[i])
        invariant
            i <= v.len(),
            first_word(v@) == v@.take(i as int) + first_word(v@.skip(i as int)),
        decreases v.len() - i,
    {
        assert(v@.skip(i as int).drop_first() == v@.skip(i + 1));
        assert(v@.take(i + 1) == v@.take(i as int) + seq![v@[i as int]]);
        i += 1;
    }
    string_of_range(v, 0, i)
}

fn rss_line(line: &str) -> (r: Option<u64>)
    ensures
        match r {
            Some(n) => rss_of_line(line@) == Some(n as int),
            None => rss_of_line(line@) is None,
        },
{
    let v = chars_of(line);
    let p = chars_of("VmRSS:");
    proof {
        reveal_strlit("VmRSS:");
    }
    if !crate::text::starts_with(&v, &p) {
        return None;
    }
    let rest = string_of_range(&v, 6, v.len());
    assert(v@.subrange(6, v@.len() as int) == v@.skip(6));
    let t = trim(rest.as_str());
    let tv = chars_of(t.as_str());
    let word = first_word_of(&tv);
    if word.as_str().is_empty() {
        return None;
    }
    match crate::text::parse_u64(word.as_str()) {
        Some(kb) => {
            let bytes = kb.wrapping_mul(1024);
            Some(bytes)
        },
        None => None,
    }
}

/// The resident memory of the process, in bytes, from the text of its
/// kernel status file: the first `VmRSS:` line that reads as a number.
pub fn memory_rss_bytes(status_text: &str) -> (r: Option<u64>)
    ensures
        match r {
            Some(n) => rss_of_lines(crate::config::env_file::lines_spec(status_text@)) == Some(n as int),
            None => rss_of_lines(crate::config::env_file::lines_spec(status_text@)) is None,
        },
{
    let lines = crate::config::env_file::split_lines(status_text);
    let ghost lv = crate::config::app::strings_view(lines@);
    let mut i: usize = 0;
    assert(lv.skip(0) == lv);
    while i < lines.len()
        invariant
            i <= lines.len(),
            lv == crate::config::app::strings_view(lines@),
            lv == crate::config::env_file::lines_spec(status_text@),
            rss_of_lines(lv) == rss_of_lines(lv.skip(i as int)),
        decreases lines.len() - i,
    {
        assert(lv.skip(i as int)[0] == lines@[i as int]@);
        assert(lv.skip(i as int).drop_first() == lv.skip(i + 1));
        match rss_line(lines[i].as_str()) {
            Some(n) => return Some(n),
            None => {},
        }
        i += 1;
    }
    None
}

/// Grouped counts as mathematical values.
pub open spec fn counts_view(v: Seq<(String, i64)>) -> Seq<(Seq<char>, i64)> {
    v.map_values(|p: (String, i64)| (p.0@, p.1))
}

/// How one grouped count is printed.
pub open spec fn count_line_spec(key: Seq<char>, count: i64) -> Seq<char> {
    "    "@ + key + ": "@ + signed_dec_spec(count as int)
}

/// How grouped counts are printed: one line each, or a single
/// `<empty>: 0` line when there are none.
pub open spec fn grouped_lines_spec(counts: Seq<(Seq<char>, i64)>) -> Seq<Seq<char>> {
    if counts.len() == 0 {
        seq!["    <empty>: 0"@]
    } else {
        counts.map_values(|p: (Seq<char>, i64)| count_line_spec(p.0, p.1))
    }
}

/// An indented `label: value` line.
pub open spec fn field_line(label: Seq<char>, value: Seq<char>) -> Seq<char> {
    "  "@ + label + ": "@ + value
}

/// How the store counters are printed.
pub open spec fn snapshot_lines_spec(s: StatusSnapshot) -> Seq<Seq<char>> {
    seq![
        field_line("total_messages"@, signed_dec_spec(s.total_messages as int)),
        field_line("authorized_messages"@, signed_dec_spec(s.authorized_messages as int)),
        field_line("failed_messages"@, signed_dec_spec(s.failed_messages as int)),
        field_line("source_written_messages"@, signed_dec_spec(s.source_written_messages as int)),
        field_line("total_jobs"@, signed_dec_spec(s.total_jobs as int)),
        field_line("total_job_attempts"@, signed_dec_spec(s.total_job_attempts as int)),
        field_line("retry_attempts"@, signed_dec_spec(s.retry_attempts as int)),
        field_line("processed_text_bytes"@, signed_dec_spec(s.processed_text_bytes as int)),
        field_line("source_bytes_written"@, signed_dec_spec(s.source_bytes_written as int)),
        "  token_usage: not_tracked"@,
        "  messages_by_status:"@,
    ] + grouped_lines_spec(counts_view(s.messages_by_status@)) + seq!["  messages_by_type:"@]
        + grouped_lines_spec(counts_view(s.messages_by_type@)) + seq!["  jobs_by_status:"@]
        + grouped_lines_spec(counts_view(s.jobs_by_status@))
}

/// The debug form of an optional count: `Some(N)` or `None`.
pub open spec fn debug_opt_u64(v: Option<u64>) -> Seq<char> {
    match v {
        Some(n) => "Some("@ + dec_spec(n as nat) + ")"@,
        None => "None"@,
    }
}

/// How the status command prints a report built from the configuration.
pub open spec fn status_report_lines_spec(r: ServiceStatusReport) -> Seq<Seq<char>> {
    seq![
        "sage-wiki-bridge status"@,
        "instance:"@,
        "  scope: configured_runtime_snapshot"@,
        field_line("package_version"@, r.service.package_version@),
        field_line("status_command_pid"@, dec_spec(r.process.pid as nat)),
        field_line("memory_rss_bytes"@, debug_opt_u64(r.process.memory_rss_bytes)),
        field_line("database_url"@, r.service.database_url@),
        field_line("bind_addr"@, r.service.bind_addr@),
        field_line("worker_enabled"@, bool_text(r.service.worker_enabled)),
        field_line("callback_path"@, r.endpoints.callback_path@),
        field_line("admin_status_path"@, r.endpoints.status_path@),
        "config:"@,
    ] + entry_lines_spec(entries_view(r.config@)) + seq![
        "runtime_checks:"@,
        field_line("database_ready"@, bool_text(r.runtime_checks.database_ready)),
        field_line("source_dir_writable"@, bool_text(r.runtime_checks.source_dir_writable)),
        field_line("raw_archive_dir_writable"@, bool_text(r.runtime_checks.raw_archive_dir_writable)),
        field_line(
            "processed_artifact_dir_writable"@,
            bool_text(r.runtime_checks.processed_artifact_dir_writable),
        ),
        "metrics:"@,
    ] + snapshot_lines_spec(r.metrics)
}

fn push_line(out: &mut Vec<String>, line: &str)
    ensures
        strings_view(final(out)@) == strings_view(old(out)@).push(line@),
{
    let ghost before = out@;
    out.push(string_from(line));
    assert(strings_view(out@) =~= strings_view(before).push(line@));
}

fn push_field(out: &mut Vec<String>, label: &str, value: &str)
    ensures
        strings_view(final(out)@) == strings_view(old(out)@).push(field_line(label@, value@)),
{
    let mut line = string_from("  ");
    push_str(&mut line, label);
    push_str(&mut line, ": ");
    push_str(&mut line, value);
    push_line(out, line.as_str());
}

fn append_lines(out: &mut Vec<String>, more: Vec<String>)
    ensures
        strings_view(final(out)@) == strings_view(old(out)@) + strings_view(more@),
{
    let ghost before = strings_view(out@);
    let mut i: usize = 0;
    while i < more.len()
        invariant
            i <= more@.len(),
            strings_view(out@) == before + strings_view(more@).take(i as int),
        decreases more@.len() - i,
    {
        push_line(out, more[i].as_str());
        assert(strings_view(more@).take(i + 1) =~= strings_view(more@).take(i as int).push(more@[i as int]@));
        i = i + 1;
    }
    assert(strings_view(more@).take(more@.len() as int) =~= strings_view(more@));
}

/// The printed form of grouped counts (see `grouped_lines_spec`).
pub fn grouped_count_lines(counts: &Vec<(String, i64)>) -> (r: Vec<String>)
    ensures
        strings_view(r@) == grouped_lines_spec(counts_view(counts@)),
{
    let mut out: Vec<String> = Vec::new();
    if counts.len() == 0 {
        push_line(&mut out, "    <empty>: 0");
        assert(strings_view(out@) =~= seq!["    <empty>: 0"@]);
        return out;
    }
    let mut i: usize = 0;
    while i < counts.len()
        invariant
            i <= counts@.len(),
            strings_view(out@) == grouped_lines_spec(counts_view(counts@)).take(i as int),
            counts@.len() > 0,
        decreases counts@.len() - i,
    {
        let mut line = string_from("    ");
        push_str(&mut line, counts[i].0.as_str());
        push_str(&mut line, ": ");
        let n = i64_to_dec(counts[i].1);
        push_str(&mut line, n.as_str());
        push_line(&mut out, line.as_str());
        assert(grouped_lines_spec(counts_view(counts@)).take(i + 1) =~= grouped_lines_spec(
            counts_view(counts@),
        ).take(i as int).push(count_line_spec(counts@[i as int].0@, counts@[i as int].1)));
        i = i + 1;
    }
    assert(grouped_lines_spec(counts_view(counts@)).take(counts@.len() as int) =~= grouped_lines_spec(
        counts_view(counts@),
    ));
    out
}

/// The printed form of the store counters (see `snapshot_lines_spec`).
pub fn status_snapshot_lines(s: &StatusSnapshot) -> (r: Vec<String>)
    ensures
        strings_view(r@) == snapshot_lines_spec(*s),
{
    let mut out: Vec<String> = Vec::new();
    push_field(&mut out, "total_messages", i64_to_dec(s.total_messages).as_str());
    push_field(&mut out, "authorized_messages", i64_to_dec(s.authorized_messages).as_str());
    push_field(&mut out, "failed_messages", i64_to_dec(s.failed_messages).as_str());
    push_field(&mut out, "source_written_messages", i64_to_dec(s.source_written_messages).as_str());
    push_field(&mut out, "total_jobs", i64_to_dec(s.total_jobs).as_str());
    push_field(&mut out, "total_job_attempts", i64_to_dec(s.total_job_attempts).as_str());
    push_field(&mut out, "retry_attempts", i64_to_dec(s.retry_attempts).as_str());
    push_field(&mut out, "processed_text_bytes", i64_to_dec(s.processed_text_bytes).as_str());
    push_field(&mut out, "source_bytes_written", i64_to_dec(s.source_bytes_written).as_str());
    push_line(&mut out, "  token_usage: not_tracked");
    push_line(&mut out, "  messages_by_status:");
    append_lines(&mut out, grouped_count_lines(&s.messages_by_status));
    push_line(&mut out, "  messages_by_type:");
    append_lines(&mut out, grouped_count_lines(&s.messages_by_type));
    push_line(&mut out, "  jobs_by_status:");
    append_lines(&mut out, grouped_count_lines(&s.jobs_by_status));
    assert(strings_view(out@) =~= snapshot_lines_spec(*s));
    out
}

fn debug_opt_u64_string(v: Option<u64>) -> (r: String)
    ensures
        r@ == debug_opt_u64(v),
{
    match v {
        Some(n) => {
            let mut out = string_from("Some(");
            push_str(&mut out, u64_to_dec(n).as_str());
            push_str(&mut out, ")");
            out
        },
        None => string_from("None"),
    }
}

/// What the status command prints for a report built from the
/// configuration (see `status_report_lines_spec`).
pub fn status_report_lines(r: &ServiceStatusReport) -> (lines: Vec<String>)
    ensures
        strings_view(lines@) == status_report_lines_spec(*r),
{
    let mut out: Vec<String> = Vec::new();
    push_line(&mut out, "sage-wiki-bridge status");
    push_line(&mut out, "instance:");
    push_line(&mut out, "  scope: configured_runtime_snapshot");
    push_field(&mut out, "package_version", r.service.package_version.as_str());
    push_field(&mut out, "status_command_pid", u64_to_dec(r.process.pid as u64).as_str());
    push_field(&mut out, "memory_rss_bytes", debug_opt_u64_string(r.process.memory_rss_bytes).as_str());
    push_field(&mut out, "database_url", r.service.database_url.as_str());
    push_field(&mut out, "bind_addr", r.service.bind_addr.as_str());
    push_field(&mut out, "worker_enabled", bool_string(r.service.worker_enabled).as_str());
    push_field(&mut out, "callback_path", r.endpoints.callback_path.as_str());
    push_field(&mut out, "admin_status_path", r.endpoints.status_path.as_str());
    push_line(&mut out, "config:");
    append_lines(&mut out, config_entry_lines(&r.config));
    push_line(&mut out, "runtime_checks:");
    push_field(&mut out, "database_ready", bool_string(r.runtime_checks.database_ready).as_str());
    push_field(&mut out, "source_dir_writable", bool_string(r.runtime_checks.source_dir_writable).as_str());
    push_field(&mut out, "raw_archive_dir_writable", bool_string(r.runtime_checks.raw_archive_dir_writable).as_str());
    push_field(
        &mut out,
        "processed_artifact_dir_writable",
        bool_string(r.runtime_checks.processed_artifact_dir_writable).as_str(),
    );
    push_line(&mut out, "metrics:");
    append_lines(&mut out, status_snapshot_lines(&r.metrics));
    assert(strings_view(out@) =~= status_report_lines_spec(*r));
    out
}

/// What `-V` prints: the version, the build target and system, and the
/// configuration report.
pub open spec fn verbose_version_lines_spec(entries: Seq<EntryView>, arch: Seq<char>, os: Seq<char>) -> Seq<Seq<char>> {
    seq![
        "sage-wiki-bridge "@ + package_version_spec(),
        "build:"@,
        field_line("package_version"@, package_version_spec()),
        field_line("target"@, arch),
        field_line("os"@, os),
        "config:"@,
    ] + entry_lines_spec(entries)
}

/// What `-V` prints (see `verbose_version_lines_spec`); `arch` and `os` name
/// the machine the program was built for.
pub fn verbose_version_lines(entries: &Vec<ConfigReportEntry>, arch: &str, os: &str) -> (lines: Vec<String>)
    ensures
        strings_view(lines@) == verbose_version_lines_spec(entries_view(entries@), arch@, os@),
{
    let mut out: Vec<String> = Vec::new();
    let mut first = string_from("sage-wiki-bridge ");
    push_str(&mut first, package_version());
    push_line(&mut out, first.as_str());
    push_line(&mut out, "build:");
    push_field(&mut out, "package_version", package_version());
    push_field(&mut out, "target", arch);
    push_field(&mut out, "os", os);
    push_line(&mut out, "config:");
    append_lines(&mut out, config_entry_lines(entries));
    assert(strings_view(out@) =~= verbose_version_lines_spec(entries_view(entries@), arch@, os@));
    out
}

} // verus!
