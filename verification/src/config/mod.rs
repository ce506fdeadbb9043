//! Runtime configuration: command-line flags, an env file and the process
//! environment, resolved in that order of precedence over built-in defaults.
//!
//! Reading the env file and the process environment is left to the caller,
//! which hands their contents in.
use vstd::prelude::*;

use crate::config::app::{AppConfig, EnvSecrets};
use crate::config::cli::{CliCommand, CliConfig, CliState};
use crate::config::report::ConfigReportEntry;
use crate::config::settings::{opt_str, pairs_view};
use crate::config::tables::{contains_second, env_alias_table, flag_table, lookup_first};
use crate::error::{BridgeError, ErrorKind, ErrorView};
use crate::text::{is_blank, push_str, str_eq, string_from};

pub mod app;
pub mod cli;
pub mod env_file;
pub mod help;
pub mod report;
pub mod settings;
pub mod tables;

verus! {

/// The resolved configuration.
#[derive(Debug, Clone, PartialEq, Eq)]
pub struct RuntimeConfig {
    pub app: AppConfig,
    pub secrets: EnvSecrets,
}

/// The resolved configuration with its report.
#[derive(Debug, Clone, PartialEq, Eq)]
pub struct RuntimeConfigReport {
    pub runtime: RuntimeConfig,
    pub entries: Vec<ConfigReportEntry>,
}

/// A resolved setting: its key, its value and where the value came from.
pub type Resolved = (Seq<char>, Seq<char>, Seq<char>);

/// Keys that stand for a setting key under another name without the
/// `BRIDGE_` prefix, or that are setting keys themselves.
pub open spec fn special_key_spec(key: Seq<char>) -> Option<Seq<char>> {
    if key == "WECHAT_APPID"@ {
        Some("WECHAT_APP_ID"@)
    } else if key == "WECHAT_APPSECRET"@ {
        Some("WECHAT_APP_SECRET"@)
    } else if key == "BRIDGE_VERSION"@ {
        Some("BRIDGE_VERSION"@)
    } else if crate::config::tables::has_second(crate::config::tables::flag_specs(), key) {
        Some(key)
    } else {
        None
    }
}

/// The setting key an input key stands for, and whether it is an alias.
pub open spec fn canonical_env_key_spec(key: Seq<char>) -> Option<(Seq<char>, bool)> {
    match crate::config::tables::find_by_first(crate::config::tables::env_alias_specs(), key) {
        Some(c) => Some((c, true)),
        None => match special_key_spec(key) {
            Some(c) => Some((c, false)),
            None => None,
        },
    }
}

/// An input from the env file or the process environment, under its
/// setting key; an alias names itself in the source.
pub open spec fn input_entry(key: Seq<char>, value: Seq<char>, source: Seq<char>) -> Resolved {
    match canonical_env_key_spec(key) {
        Some((c, alias)) => (c, value, if alias {
            source + " ("@ + key + ")"@
        } else {
            source
        }),
        None => (key, value, source),
    }
}

/// The inputs of a list of pairs from one source, blank values dropped when
/// `skip_blank` holds.
pub open spec fn inputs_spec(pairs: Seq<(Seq<char>, Seq<char>)>, source: Seq<char>, skip_blank: bool) -> Seq<Resolved>
    decreases pairs.len(),
{
    if pairs.len() == 0 {
        Seq::empty()
    } else {
        let rest = inputs_spec(pairs.drop_last(), source, skip_blank);
        let p = pairs.last();
        if skip_blank && crate::text::trim_spec(p.1).len() == 0 {
            rest
        } else {
            rest.push(input_entry(p.0, p.1, source))
        }
    }
}

/// The setting flags of the command line, with `cli` as their source.
pub open spec fn cli_inputs_spec(values: Seq<(Seq<char>, Seq<char>)>) -> Seq<Resolved> {
    values.map_values(|p: (Seq<char>, Seq<char>)| (p.0, p.1, "cli"@))
}

/// The source name of the env file.
pub open spec fn env_source(path: Seq<char>) -> Seq<char> {
    "env-file:"@ + path
}

/// Everything resolved, in order of increasing precedence: the process
/// environment (when asked for), the env file, the command line.
pub open spec fn resolved_spec(cli: CliState, env_pairs: Seq<(Seq<char>, Seq<char>)>, process_env: Seq<(Seq<char>, Seq<char>)>) -> Seq<Resolved> {
    (if cli.use_process_env {
        inputs_spec(process_env, "process-env"@, true)
    } else {
        Seq::empty()
    }) + match cli.env_file {
        Some(path) => inputs_spec(env_pairs, env_source(path), false),
        None => Seq::empty(),
    } + cli_inputs_spec(cli.values)
}

/// The values of resolved settings.
pub open spec fn values_of(r: Seq<Resolved>) -> Seq<(Seq<char>, Seq<char>)> {
    r.map_values(|t: Resolved| (t.0, t.1))
}

/// The sources of resolved settings.
pub open spec fn sources_of(r: Seq<Resolved>) -> Seq<(Seq<char>, Seq<char>)> {
    r.map_values(|t: Resolved| (t.0, t.2))
}

/// The pairs of the env file the command line names, given what reading it
/// gave (its text, or the text of the read error).
pub open spec fn env_pairs_spec(cli: CliState, content: Option<Result<Seq<char>, Seq<char>>>) -> Result<Seq<(Seq<char>, Seq<char>)>, ErrorView> {
    match cli.env_file {
        None => Ok(Seq::empty()),
        Some(path) => match content {
            Some(Ok(c)) => crate::config::env_file::env_file_spec(path, c),
            Some(Err(m)) => Err((ErrorKind::Config, "failed to read env file "@ + path + ": "@ + m)),
            None => Err(
                (ErrorKind::Config, "failed to read env file "@ + path + ": no content was read"@),
            ),
        },
    }
}

/// The view of what reading the env file gave.
pub open spec fn content_view(c: Option<Result<String, String>>) -> Option<Result<Seq<char>, Seq<char>>> {
    match c {
        Some(Ok(s)) => Some(Ok(s@)),
        Some(Err(m)) => Some(Err(m@)),
        None => None,
    }
}

/// The command line asks only for help or the version.
pub open spec fn stops_early(cli: CliState) -> bool {
    cli.help || cli.version || cli.command == Some(CliCommand::Version)
}

/// What resolving the configuration gives: the command line's error; no
/// configuration when it asks for help or the version; the env file's error;
/// the first bad setting's error; or the settings, secrets and report read
/// from everything resolved.
pub open spec fn report_outcome(
    r: Result<Option<RuntimeConfigReport>, BridgeError>,
    args: Seq<Seq<char>>,
    content: Option<Result<Seq<char>, Seq<char>>>,
    process_env: Seq<(Seq<char>, Seq<char>)>,
) -> bool {
    match crate::config::cli::parse_cli_spec(args) {
        Err(e) => r matches Err(x) && x@ == e,
        Ok(cli) => if stops_early(cli) {
            r matches Ok(None)
        } else {
            match env_pairs_spec(cli, content) {
                Err(e) => r matches Err(x) && x@ == e,
                Ok(env_pairs) => {
                    let resolved = resolved_spec(cli, env_pairs, process_env);
                    match crate::config::app::config_error_spec(values_of(resolved)) {
                        Some(e) => r matches Err(x) && x@ == e,
                        None => r matches Ok(Some(rep)) && crate::config::app::app_config_matches(
                            rep.runtime.app,
                            values_of(resolved),
                        ) && crate::config::app::secrets_match(
                            rep.runtime.secrets,
                            values_of(resolved),
                        ) && crate::config::report::entries_view(rep.entries@)
                            == crate::config::report::report_spec(
                            rep.runtime.app,
                            rep.runtime.secrets,
                            sources_of(resolved),
                        ),
                    }
                },
            }
        },
    }
}

/// Resolved settings: the values and their sources, side by side.
struct ResolvedValues {
    values: Vec<(String, String)>,
    sources: Vec<(String, String)>,
}

impl ResolvedValues {
    spec fn holds(&self, r: Seq<Resolved>) -> bool {
        pairs_view(self.values@) == values_of(r) && pairs_view(self.sources@) == sources_of(r)
    }

    fn insert(&mut self, key: String, value: String, source: String, Ghost(r): Ghost<Seq<Resolved>>)
        requires
            old(self).holds(r),
        ensures
            final(self).holds(r.push((key@, value@, source@))),
    {
        let ghost t = (key@, value@, source@);
        let k2 = string_from(key.as_str());
        self.values.push((key, value));
        self.sources.push((k2, source));
        assert(values_of(r.push(t)) =~= values_of(r).push((t.0, t.1)));
        assert(sources_of(r.push(t)) =~= sources_of(r).push((t.0, t.2)));
        assert(pairs_view(self.values@) =~= values_of(r.push(t)));
        assert(pairs_view(self.sources@) =~= sources_of(r.push(t)));
    }

    fn insert_input(&mut self, key: &str, value: &str, source: &str, Ghost(r): Ghost<Seq<Resolved>>)
        requires
            old(self).holds(r),
        ensures
            final(self).holds(r.push(input_entry(key@, value@, source@))),
    {
        match canonical_env_key(key) {
            Some((canonical, alias)) => {
                let mut s = string_from(source);
                if alias {
                    push_str(&mut s, " (");
                    push_str(&mut s, key);
                    push_str(&mut s, ")");
                }
                self.insert(canonical, string_from(value), s, Ghost(r));
            },
            None => self.insert(string_from(key), string_from(value), string_from(source), Ghost(r)),
        }
    }
}

fn canonical_special_key(key: &str) -> (r: Option<String>)
    ensures
        opt_str(r) == special_key_spec(key@),
{
    if str_eq(key, "WECHAT_APPID") {
        Some(string_from("WECHAT_APP_ID"))
    } else if str_eq(key, "WECHAT_APPSECRET") {
        Some(string_from("WECHAT_APP_SECRET"))
    } else if str_eq(key, "BRIDGE_VERSION") {
        Some(string_from("BRIDGE_VERSION"))
    } else {
        let table = flag_table();
        if contains_second(&table, key) {
            Some(string_from(key))
        } else {
            None
        }
    }
}

fn canonical_env_key(key: &str) -> (r: Option<(String, bool)>)
    ensures
        match r {
            Some((c, alias)) => canonical_env_key_spec(key@) == Some((c@, alias)),
            None => canonical_env_key_spec(key@) is None,
        },
{
    let aliases = env_alias_table();
    match lookup_first(&aliases, key) {
        Some(c) => Some((string_from(c), true)),
        None => match canonical_special_key(key) {
            Some(c) => Some((c, false)),
            None => None,
        },
    }
}

fn insert_inputs(
    resolved: &mut ResolvedValues,
    pairs: &Vec<(String, String)>,
    source: &str,
    skip_blank: bool,
    Ghost(r): Ghost<Seq<Resolved>>,
)
    requires
        old(resolved).holds(r),
    ensures
        final(resolved).holds(r + inputs_spec(pairs_view(pairs@), source@, skip_blank)),
{
    let ghost pv = pairs_view(pairs@);
    let mut i: usize = 0;
    assert(pv.take(0) =~= Seq::<(Seq<char>, Seq<char>)>::empty());
    assert(r + inputs_spec(pv.take(0), source@, skip_blank) =~= r);
    while i < pairs.len()
        invariant
            i <= pairs.len(),
            pv == pairs_view(pairs@),
            resolved.holds(r + inputs_spec(pv.take(i as int), source@, skip_blank)),
        decreases pairs.len() - i,
    {
        let ghost before = r + inputs_spec(pv.take(i as int), source@, skip_blank);
        assert(pv.take(i + 1).drop_last() == pv.take(i as int));
        assert(pv.take(i + 1).last() == (pairs@[i as int].0@, pairs@[i as int].1@));
        let key = pairs[i].0.as_str();
        let value = pairs[i].1.as_str();
        if skip_blank && is_blank(value) {
        } else {
            resolved.insert_input(key, value, source, Ghost(before));
            assert(before.push(input_entry(key@, value@, source@)) =~= r + inputs_spec(
                pv.take(i + 1),
                source@,
                skip_blank,
            ));
        }
        i += 1;
    }
    assert(pv.take(pairs.len() as int) == pv);
}

fn resolve_env_file(cli: &CliConfig, content: Option<Result<String, String>>) -> (r: Result<Vec<(String, String)>, BridgeError>)
    ensures
        match r {
            Ok(p) => env_pairs_spec(cli@, content_view(content)) == Ok::<
                Seq<(Seq<char>, Seq<char>)>,
                ErrorView,
            >(pairs_view(p@)),
            Err(e) => env_pairs_spec(cli@, content_view(content)) == Err::<
                Seq<(Seq<char>, Seq<char>)>,
                ErrorView,
            >(e@),
        },
{
    match &cli.env_file {
        None => {
            let v: Vec<(String, String)> = Vec::new();
            assert(pairs_view(v@) =~= Seq::<(Seq<char>, Seq<char>)>::empty());
            Ok(v)
        },
        Some(path) => match content {
            Some(Ok(c)) => crate::config::env_file::parse_env_file(path.as_str(), c.as_str()),
            Some(Err(m)) => {
                let mut msg = string_from("failed to read env file ");
                push_str(&mut msg, path.as_str());
                push_str(&mut msg, ": ");
                push_str(&mut msg, m.as_str());
                Err(BridgeError::Config(msg))
            },
            None => {
                let mut msg = string_from("failed to read env file ");
                push_str(&mut msg, path.as_str());
                push_str(&mut msg, ": no content was read");
                Err(BridgeError::Config(msg))
            },
        },
    }
}

fn resolve_all(cli: &CliConfig, env_pairs: &Vec<(String, String)>, process_env: &Vec<(String, String)>) -> (resolved: ResolvedValues)
    ensures
        resolved.holds(resolved_spec(cli@, pairs_view(env_pairs@), pairs_view(process_env@))),
{
    let mut resolved = ResolvedValues { values: Vec::new(), sources: Vec::new() };
    assert(pairs_view(resolved.values@) =~= values_of(Seq::<Resolved>::empty()));
    assert(pairs_view(resolved.sources@) =~= sources_of(Seq::<Resolved>::empty()));
    let ghost r0 = Seq::<Resolved>::empty();
    let ghost r1 = if cli.use_process_env {
        r0 + inputs_spec(pairs_view(process_env@), "process-env"@, true)
    } else {
        r0
    };
    if cli.use_process_env {
        insert_inputs(&mut resolved, process_env, "process-env", true, Ghost(r0));
    }
    let ghost r2 = match cli@.env_file {
        Some(path) => r1 + inputs_spec(pairs_view(env_pairs@), env_source(path), false),
        None => r1,
    };
    match &cli.env_file {
        Some(path) => {
            let mut source = string_from("env-file:");
            push_str(&mut source, path.as_str());
            insert_inputs(&mut resolved, env_pairs, source.as_str(), false, Ghost(r1));
        },
        None => {},
    }
    let mut i: usize = 0;
    let ghost cv = pairs_view(cli.values@);
    assert(r2 + cli_inputs_spec(cv.take(0)) =~= r2);
    while i < cli.values.len()
        invariant
            i <= cli.values.len(),
            cv == pairs_view(cli.values@),
            resolved.holds(r2 + cli_inputs_spec(cv.take(i as int))),
        decreases cli.values.len() - i,
    {
        let ghost before = r2 + cli_inputs_spec(cv.take(i as int));
        resolved.insert(
            string_from(cli.values[i].0.as_str()),
            string_from(cli.values[i].1.as_str()),
            string_from("cli"),
            Ghost(before),
        );
        assert(before.push((cv[i as int].0, cv[i as int].1, "cli"@)) =~= r2 + cli_inputs_spec(
            cv.take(i + 1),
        ));
        i += 1;
    }
    assert(cv.take(cli.values.len() as int) == cv);
    assert(r2 + cli_inputs_spec(cv) =~= resolved_spec(cli@, pairs_view(env_pairs@), pairs_view(process_env@)));
    resolved
}

/// Resolves the configuration with its report (see `report_outcome`).
/// `env_file_content` is what reading the file the command line names gave;
/// `process_env` is the process environment, used only when the command
/// line asks for it.
pub fn runtime_config_report_from_args(
    args: &Vec<String>,
    env_file_content: Option<Result<String, String>>,
    process_env: &Vec<(String, String)>,
) -> (r: Result<Option<RuntimeConfigReport>, BridgeError>)
    ensures
        report_outcome(
            r,
            crate::config::app::strings_view(args@),
            content_view(env_file_content),
            pairs_view(process_env@),
        ),
{
    let cli = CliConfig::parse(args)?;
    if cli.help || cli.version || cli.command == Some(CliCommand::Version) {
        return Ok(None);
    }
    let env_pairs = resolve_env_file(&cli, env_file_content)?;
    let resolved = resolve_all(&cli, &env_pairs, process_env);
    let app = AppConfig::from_lookup(&resolved.values)?;
    let secrets = EnvSecrets::from_lookup(&resolved.values);
    let entries = crate::config::report::config_report_entries(&app, &secrets, &resolved.sources);
    Ok(Some(RuntimeConfigReport { runtime: RuntimeConfig { app, secrets }, entries }))
}

/// Resolves the configuration (see `runtime_config_report_from_args`),
/// without its report.
pub fn runtime_config_from_args(
    args: &Vec<String>,
    env_file_content: Option<Result<String, String>>,
    process_env: &Vec<(String, String)>,
) -> (r: Result<Option<RuntimeConfig>, BridgeError>)
    ensures
        exists|full: Result<Option<RuntimeConfigReport>, BridgeError>|
            report_outcome(
                full,
                crate::config::app::strings_view(args@),
                content_view(env_file_content),
                pairs_view(process_env@),
            ) && match full {
                Ok(Some(rep)) => r == Ok::<Option<RuntimeConfig>, BridgeError>(Some(rep.runtime)),
                Ok(None) => r matches Ok(None),
                Err(e) => r matches Err(x) && x@ == e@,
            },
{
    let report = runtime_config_report_from_args(args, env_file_content, process_env);
    match report {
        Ok(Some(rep)) => {
            let ghost full = Ok::<Option<RuntimeConfigReport>, BridgeError>(Some(rep));
            let out = Ok(Some(rep.runtime));
            assert(report_outcome(full, crate::config::app::strings_view(args@), content_view(env_file_content), pairs_view(process_env@)));
            out
        },
        Ok(None) => Ok(None),
        Err(e) => Err(e),
    }
}

proof fn lemma_lookup_append(a: Seq<(Seq<char>, Seq<char>)>, b: Seq<(Seq<char>, Seq<char>)>, key: Seq<char>)
    ensures
        crate::config::settings::lookup_spec(a + b, key) == match crate::config::settings::lookup_spec(b, key) {
            Some(v) => Some(v),
            None => crate::config::settings::lookup_spec(a, key),
        },
    decreases b.len(),
{
    if b.len() == 0 {
        assert(a + b =~= a);
    } else {
        assert((a + b).drop_last() =~= a + b.drop_last());
        assert((a + b).last() == b.last());
        lemma_lookup_append(a, b.drop_last(), key);
    }
}

proof fn lemma_values_of_append(a: Seq<Resolved>, b: Seq<Resolved>)
    ensures
        values_of(a + b) == values_of(a) + values_of(b),
{
    assert(values_of(a + b) =~= values_of(a) + values_of(b));
}

/// A setting given on the command line wins: whatever the env file and the
/// process environment hold, the resolved value of its key is the last one
/// the command line gave.
pub proof fn lemma_cli_takes_precedence(
    cli: CliState,
    env_pairs: Seq<(Seq<char>, Seq<char>)>,
    process_env: Seq<(Seq<char>, Seq<char>)>,
    key: Seq<char>,
)
    requires
        crate::config::settings::lookup_spec(cli.values, key) is Some,
    ensures
        crate::config::settings::lookup_spec(values_of(resolved_spec(cli, env_pairs, process_env)), key)
            == crate::config::settings::lookup_spec(cli.values, key),
{
    let first = (if cli.use_process_env {
        inputs_spec(process_env, "process-env"@, true)
    } else {
        Seq::empty()
    }) + match cli.env_file {
        Some(path) => inputs_spec(env_pairs, env_source(path), false),
        None => Seq::empty(),
    };
    let last = cli_inputs_spec(cli.values);
    assert(resolved_spec(cli, env_pairs, process_env) == first + last);
    lemma_values_of_append(first, last);
    assert(values_of(last) =~= cli.values);
    lemma_lookup_append(values_of(first), values_of(last), key);
}

/// Without the key on the command line, the env file wins over the process
/// environment: the resolved value is the last one the env file gave for
/// the key (aliases read as the keys they stand for).
pub proof fn lemma_env_file_over_process_env(
    cli: CliState,
    env_pairs: Seq<(Seq<char>, Seq<char>)>,
    process_env: Seq<(Seq<char>, Seq<char>)>,
    key: Seq<char>,
)
    requires
        crate::config::settings::lookup_spec(cli.values, key) is None,
        cli.env_file is Some,
        crate::config::settings::lookup_spec(
            values_of(inputs_spec(env_pairs, env_source(cli.env_file->Some_0), false)),
            key,
        ) is Some,
    ensures
        crate::config::settings::lookup_spec(values_of(resolved_spec(cli, env_pairs, process_env)), key)
            == crate::config::settings::lookup_spec(
            values_of(inputs_spec(env_pairs, env_source(cli.env_file->Some_0), false)),
            key,
        ),
{
    let p = if cli.use_process_env {
        inputs_spec(process_env, "process-env"@, true)
    } else {
        Seq::empty()
    };
    let e = inputs_spec(env_pairs, env_source(cli.env_file->Some_0), false);
    let last = cli_inputs_spec(cli.values);
    assert(resolved_spec(cli, env_pairs, process_env) == p + e + last);
    lemma_values_of_append(p + e, last);
    lemma_values_of_append(p, e);
    assert(values_of(last) =~= cli.values);
    lemma_lookup_append(values_of(p + e), values_of(last), key);
    lemma_lookup_append(values_of(p), values_of(e), key);
}

/// A key that no source gives takes its built-in default: a string setting
/// that nothing resolves reads as its default.
pub proof fn lemma_unset_key_takes_default(resolved: Seq<Resolved>, key: Seq<char>, default: Seq<char>)
    requires
        crate::config::settings::lookup_spec(values_of(resolved), key) is None,
    ensures
        crate::config::settings::string_setting(values_of(resolved), key, default) == default,
{
}

/// The process environment is read only when the command line asks for
/// it: without `--use-process-env`, any two process environments give the
/// same outcome (the same configuration, or the same error).
pub proof fn lemma_process_env_ignored_without_flag(
    args: Seq<Seq<char>>,
    content: Option<Result<Seq<char>, Seq<char>>>,
    process_env_1: Seq<(Seq<char>, Seq<char>)>,
    process_env_2: Seq<(Seq<char>, Seq<char>)>,
    r: Result<Option<RuntimeConfigReport>, BridgeError>,
)
    requires
        !(crate::config::cli::parse_cli_spec(args) matches Ok(cli) && cli.use_process_env),
    ensures
        report_outcome(r, args, content, process_env_1) == report_outcome(r, args, content, process_env_2),
{
    match crate::config::cli::parse_cli_spec(args) {
        Ok(cli) => {
            match env_pairs_spec(cli, content) {
                Ok(env_pairs) => {
                    assert(resolved_spec(cli, env_pairs, process_env_1) == resolved_spec(
                        cli,
                        env_pairs,
                        process_env_2,
                    ));
                },
                Err(_) => {},
            }
        },
        Err(_) => {},
    }
}

/// With the key neither on the command line nor in the env file, the
/// process environment decides it when it is read, and nothing resolves it
/// otherwise (so the key takes its default).
pub proof fn lemma_process_env_is_the_last_source(
    cli: CliState,
    env_pairs: Seq<(Seq<char>, Seq<char>)>,
    process_env: Seq<(Seq<char>, Seq<char>)>,
    key: Seq<char>,
)
    requires
        crate::config::settings::lookup_spec(cli.values, key) is None,
        cli.env_file is Some ==> crate::config::settings::lookup_spec(
            values_of(inputs_spec(env_pairs, env_source(cli.env_file->Some_0), false)),
            key,
        ) is None,
    ensures
        crate::config::settings::lookup_spec(values_of(resolved_spec(cli, env_pairs, process_env)), key)
            == if cli.use_process_env {
            crate::config::settings::lookup_spec(values_of(inputs_spec(process_env, "process-env"@, true)), key)
        } else {
            None
        },
{
    let p = if cli.use_process_env {
        inputs_spec(process_env, "process-env"@, true)
    } else {
        Seq::empty()
    };
    let e = match cli.env_file {
        Some(path) => inputs_spec(env_pairs, env_source(path), false),
        None => Seq::empty(),
    };
    let last = cli_inputs_spec(cli.values);
    assert(resolved_spec(cli, env_pairs, process_env) == p + e + last);
    lemma_values_of_append(p + e, last);
    lemma_values_of_append(p, e);
    assert(values_of(last) =~= cli.values);
    lemma_lookup_append(values_of(p + e), values_of(last), key);
    lemma_lookup_append(values_of(p), values_of(e), key);
    assert(values_of(Seq::<Resolved>::empty()) =~= Seq::<(Seq<char>, Seq<char>)>::empty());
}

/// The value a key resolves to, source by source: the last value the
/// command line gave; else the last value the env file gave (aliases read as
/// the keys they stand for); else, only when the command line asks for it,
/// the last non-blank value of the process environment; else none, and the
/// key takes its default.
pub open spec fn layered_lookup(
    cli: CliState,
    env_pairs: Seq<(Seq<char>, Seq<char>)>,
    process_env: Seq<(Seq<char>, Seq<char>)>,
    key: Seq<char>,
) -> Option<Seq<char>> {
    match crate::config::settings::lookup_spec(cli.values, key) {
        Some(v) => Some(v),
        None => match (match cli.env_file {
            Some(path) => crate::config::settings::lookup_spec(
                values_of(inputs_spec(env_pairs, env_source(path), false)),
                key,
            ),
            None => None,
        }) {
            Some(v) => Some(v),
            None => if cli.use_process_env {
                crate::config::settings::lookup_spec(values_of(inputs_spec(process_env, "process-env"@, true)), key)
            } else {
                None
            },
        },
    }
}

/// Configuration precedence, for every key: the resolved value is the
/// command line's, else the env file's, else the process environment's
/// (when asked for), else none.
pub proof fn lemma_resolution_order(
    cli: CliState,
    env_pairs: Seq<(Seq<char>, Seq<char>)>,
    process_env: Seq<(Seq<char>, Seq<char>)>,
    key: Seq<char>,
)
    ensures
        crate::config::settings::lookup_spec(values_of(resolved_spec(cli, env_pairs, process_env)), key)
            == layered_lookup(cli, env_pairs, process_env, key),
{
    if crate::config::settings::lookup_spec(cli.values, key) is Some {
        lemma_cli_takes_precedence(cli, env_pairs, process_env, key);
    } else if cli.env_file is Some && crate::config::settings::lookup_spec(
        values_of(inputs_spec(env_pairs, env_source(cli.env_file->Some_0), false)),
        key,
    ) is Some {
        lemma_env_file_over_process_env(cli, env_pairs, process_env, key);
    } else {
        lemma_process_env_is_the_last_source(cli, env_pairs, process_env, key);
    }
}

/// Reading from `i` on, a command line without `--use-process-env` does not
/// ask for the process environment.
proof fn lemma_no_flag_no_process_env(args: Seq<Seq<char>>, i: int, st: CliState)
    requires
        !st.use_process_env,
        forall|j: int| i <= j < args.len() ==> args[j] != "--use-process-env"@,
        crate::config::cli::parse_from(args, i, st) is Ok,
    ensures
        !crate::config::cli::parse_from(args, i, st)->Ok_0.use_process_env,
    decreases args.len() - i,
{
    if 0 <= i < args.len() {
        let a = args[i];
        if crate::config::cli::command_word(a) is Some && st.command is None {
            lemma_no_flag_no_process_env(args, i + 1, CliState { command: crate::config::cli::command_word(a), ..st });
        } else if a == "--help"@ || a == "-h"@ {
            lemma_no_flag_no_process_env(args, i + 1, CliState { help: true, ..st });
        } else if a == "--version"@ {
            lemma_no_flag_no_process_env(args, i + 1, CliState { version: true, ..st });
        } else if a == "-V"@ {
            lemma_no_flag_no_process_env(args, i + 1, CliState { verbose_version: true, ..st });
        } else if a == "--use-process-env"@ {
        } else if a == "--env-file"@ {
            match crate::config::cli::next_value(args, i + 1, a) {
                Err(_) => {},
                Ok(v) => {
                    lemma_no_flag_no_process_env(args, i + 2, CliState { env_file: Some(v), ..st });
                },
            }
        } else if crate::text::starts_with_spec(a, "--"@) {
            let flag = crate::config::cli::split_flag(a).0;
            match crate::config::tables::find_by_first(crate::config::tables::flag_specs(), flag) {
                None => {},
                Some(key) => match crate::config::cli::split_flag(a).1 {
                    Some(v) => {
                        lemma_no_flag_no_process_env(args, i + 1, CliState { values: st.values.push((key, v)), ..st });
                    },
                    None => match crate::config::cli::next_value(args, i + 1, flag) {
                        Err(_) => {},
                        Ok(v) => {
                            lemma_no_flag_no_process_env(args, i + 2, CliState { values: st.values.push((key, v)), ..st });
                        },
                    },
                },
            }
        }
    }
}

/// The process environment matters only when the arguments ask for it:
/// when no argument is `--use-process-env`, any two process environments
/// allow exactly the same results (the same configuration and report, or
/// the same error).
pub proof fn lemma_process_env_unused_without_argument(
    args: Seq<Seq<char>>,
    content: Option<Result<Seq<char>, Seq<char>>>,
    process_env_1: Seq<(Seq<char>, Seq<char>)>,
    process_env_2: Seq<(Seq<char>, Seq<char>)>,
    r: Result<Option<RuntimeConfigReport>, BridgeError>,
)
    requires
        forall|j: int| 0 <= j < args.len() ==> args[j] != "--use-process-env"@,
    ensures
        report_outcome(r, args, content, process_env_1) == report_outcome(r, args, content, process_env_2),
{
    if crate::config::cli::parse_cli_spec(args) is Ok {
        assert(!crate::config::cli::initial_cli().use_process_env);
        lemma_no_flag_no_process_env(args, 1, crate::config::cli::initial_cli());
    }
    lemma_process_env_ignored_without_flag(args, content, process_env_1, process_env_2, r);
}

/// The configuration read from the command line, the env file and the
/// process environment holds, for every key, the value that key resolves to
/// source by source (`layered_lookup`): read from any list of pairs that
/// looks every key up that way, the settings are refused with the same
/// error, or accepted as the same configuration and secrets.
pub proof fn lemma_config_reads_layered_values(
    args: Seq<Seq<char>>,
    content: Option<Result<Seq<char>, Seq<char>>>,
    process_env: Seq<(Seq<char>, Seq<char>)>,
    r: Result<Option<RuntimeConfigReport>, BridgeError>,
    ps: Seq<(Seq<char>, Seq<char>)>,
)
    requires
        report_outcome(r, args, content, process_env),
        crate::config::cli::parse_cli_spec(args) is Ok,
        !stops_early(crate::config::cli::parse_cli_spec(args)->Ok_0),
        env_pairs_spec(crate::config::cli::parse_cli_spec(args)->Ok_0, content) is Ok,
        forall|k: Seq<char>|
            #[trigger] crate::config::settings::lookup_spec(ps, k) == layered_lookup(
                crate::config::cli::parse_cli_spec(args)->Ok_0,
                env_pairs_spec(crate::config::cli::parse_cli_spec(args)->Ok_0, content)->Ok_0,
                process_env,
                k,
            ),
    ensures
        crate::config::app::config_error_spec(ps) is Some ==> (r matches Err(x) && x@
            == crate::config::app::config_error_spec(ps)->Some_0),
        crate::config::app::config_error_spec(ps) is None ==> (r matches Ok(Some(rep))
            && crate::config::app::app_config_matches(rep.runtime.app, ps)
            && crate::config::app::secrets_match(rep.runtime.secrets, ps)),
{
    let cli = crate::config::cli::parse_cli_spec(args)->Ok_0;
    let env_pairs = env_pairs_spec(cli, content)->Ok_0;
    let vals = values_of(resolved_spec(cli, env_pairs, process_env));
    assert forall|k: Seq<char>|
        crate::config::settings::lookup_spec(vals, k) == crate::config::settings::lookup_spec(ps, k) by {
        lemma_resolution_order(cli, env_pairs, process_env, k);
    }
    match r {
        Ok(Some(rep)) => {
            crate::config::app::lemma_settings_depend_only_on_lookups(vals, ps, rep.runtime.app, rep.runtime.secrets);
        },
        _ => {
            crate::config::app::lemma_settings_depend_only_on_lookups(
                vals,
                ps,
                vstd::pervasive::arbitrary(),
                vstd::pervasive::arbitrary(),
            );
        },
    }
}

} // verus!
