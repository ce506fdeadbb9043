//! The command line: subcommands, source controls and setting flags.
use vstd::prelude::*;

use crate::config::app::strings_view;
use crate::config::settings::{opt_str, pairs_view};
use crate::config::tables::{find_by_first, flag_specs, flag_table, lookup_first};
use crate::error::{BridgeError, ErrorKind, ErrorView};
use crate::text::{chars_of, push_str, str_eq, string_from, string_of_range};

verus! {

/// The subcommand given on the command line.
#[derive(Debug, Clone, Copy, PartialEq, Eq, Structural)]
pub enum CliCommand {
    Version,
    Status,
    Doctor,
    Health,
    Ready,
}

/// The parsed command line. `values` holds each setting flag as the setting
/// key and its value, in the order given; a later one overrides an earlier.
#[derive(Debug, Clone, PartialEq, Eq)]
pub struct CliConfig {
    pub env_file: Option<String>,
    pub use_process_env: bool,
    pub help: bool,
    pub version: bool,
    pub verbose_version: bool,
    pub command: Option<CliCommand>,
    pub values: Vec<(String, String)>,
}

/// A parsed command line as mathematical values.
pub struct CliState {
    pub env_file: Option<Seq<char>>,
    pub use_process_env: bool,
    pub help: bool,
    pub version: bool,
    pub verbose_version: bool,
    pub command: Option<CliCommand>,
    pub values: Seq<(Seq<char>, Seq<char>)>,
}

impl View for CliConfig {
    type V = CliState;

    open spec fn view(&self) -> CliState {
        CliState {
            env_file: opt_str(self.env_file),
            use_process_env: self.use_process_env,
            help: self.help,
            version: self.version,
            verbose_version: self.verbose_version,
            command: self.command,
            values: pairs_view(self.values@),
        }
    }
}

/// The state before any argument is read.
pub open spec fn initial_cli() -> CliState {
    CliState {
        env_file: None,
        use_process_env: false,
        help: false,
        version: false,
        verbose_version: false,
        command: None,
        values: Seq::empty(),
    }
}

/// The subcommand a word names.
pub open spec fn command_word(a: Seq<char>) -> Option<CliCommand> {
    if a == "version"@ {
        Some(CliCommand::Version)
    } else if a == "status"@ {
        Some(CliCommand::Status)
    } else if a == "doctor"@ {
        Some(CliCommand::Doctor)
    } else if a == "health"@ {
        Some(CliCommand::Health)
    } else if a == "ready"@ {
        Some(CliCommand::Ready)
    } else {
        None
    }
}

/// The error of a flag whose value is missing.
pub open spec fn missing_value_error(flag: Seq<char>) -> ErrorView {
    (ErrorKind::Config, flag + " requires a value"@)
}

/// The value of a flag, read from the argument at `j`: it must exist and
/// must not itself look like a flag.
pub open spec fn next_value(args: Seq<Seq<char>>, j: int, flag: Seq<char>) -> Result<Seq<char>, ErrorView> {
    if j >= args.len() || crate::text::starts_with_spec(args[j], "--"@) {
        Err(missing_value_error(flag))
    } else {
        Ok(args[j])
    }
}

/// `--flag=value` split at its first `=`, or the whole argument and no value.
pub open spec fn split_flag(a: Seq<char>) -> (Seq<char>, Option<Seq<char>>) {
    match crate::text::find_spec(a, "="@) {
        Some(p) => (a.take(p), Some(a.skip(p + 1))),
        None => (a, None),
    }
}

/// Reading the arguments from position `i` on, in the state `st`.
pub open spec fn parse_from(args: Seq<Seq<char>>, i: int, st: CliState) -> Result<CliState, ErrorView>
    decreases args.len() - i,
{
    if i < 0 || i >= args.len() {
        Ok(st)
    } else {
        let a = args[i];
        if command_word(a) is Some && st.command is None {
            parse_from(args, i + 1, CliState { command: command_word(a), ..st })
        } else if a == "--help"@ || a == "-h"@ {
            parse_from(args, i + 1, CliState { help: true, ..st })
        } else if a == "--version"@ {
            parse_from(args, i + 1, CliState { version: true, ..st })
        } else if a == "-V"@ {
            parse_from(args, i + 1, CliState { verbose_version: true, ..st })
        } else if a == "--use-process-env"@ {
            parse_from(args, i + 1, CliState { use_process_env: true, ..st })
        } else if a == "--env-file"@ {
            match next_value(args, i + 1, a) {
                Err(e) => Err(e),
                Ok(v) => parse_from(args, i + 2, CliState { env_file: Some(v), ..st }),
            }
        } else if crate::text::starts_with_spec(a, "--"@) {
            let flag = split_flag(a).0;
            match find_by_first(flag_specs(), flag) {
                None => Err((ErrorKind::Config, "unknown option: "@ + flag)),
                Some(key) => match split_flag(a).1 {
                    Some(v) => parse_from(
                        args,
                        i + 1,
                        CliState { values: st.values.push((key, v)), ..st },
                    ),
                    None => match next_value(args, i + 1, flag) {
                        Err(e) => Err(e),
                        Ok(v) => parse_from(
                            args,
                            i + 2,
                            CliState { values: st.values.push((key, v)), ..st },
                        ),
                    },
                },
            }
        } else {
            Err((ErrorKind::Config, "unexpected argument: "@ + a))
        }
    }
}

/// What a command-line error can say of the argument `a` it stops at: an
/// unknown option, an unexpected argument, or a flag whose value is missing.
pub open spec fn cli_error_about(e: ErrorView, a: Seq<char>) -> bool {
    &&& e.0 == ErrorKind::Config
    &&& {
        ||| e.1 == "unknown option: "@ + split_flag(a).0
        ||| e.1 == "unexpected argument: "@ + a
        ||| e.1 == missing_value_error(a).1
        ||| e.1 == missing_value_error(split_flag(a).0).1
    }
}

/// Every refusal of the command line is a configuration error that names
/// one of the arguments read: an unknown option, an unexpected argument, or
/// a flag left without its value.
pub proof fn lemma_cli_errors_name_an_argument(args: Seq<Seq<char>>, i: int, st: CliState)
    requires
        parse_from(args, i, st) is Err,
    ensures
        exists|j: int| i <= j < args.len() && #[trigger] cli_error_about(parse_from(args, i, st)->Err_0, args[j]),
    decreases args.len() - i,
{
    let e = parse_from(args, i, st)->Err_0;
    let a = args[i];
    if command_word(a) is Some && st.command is None {
        lemma_cli_errors_name_an_argument(args, i + 1, CliState { command: command_word(a), ..st });
    } else if a == "--help"@ || a == "-h"@ {
        lemma_cli_errors_name_an_argument(args, i + 1, CliState { help: true, ..st });
    } else if a == "--version"@ {
        lemma_cli_errors_name_an_argument(args, i + 1, CliState { version: true, ..st });
    } else if a == "-V"@ {
        lemma_cli_errors_name_an_argument(args, i + 1, CliState { verbose_version: true, ..st });
    } else if a == "--use-process-env"@ {
        lemma_cli_errors_name_an_argument(args, i + 1, CliState { use_process_env: true, ..st });
    } else if a == "--env-file"@ {
        match next_value(args, i + 1, a) {
            Err(_) => {
                assert(cli_error_about(e, args[i]));
            },
            Ok(v) => {
                lemma_cli_errors_name_an_argument(args, i + 2, CliState { env_file: Some(v), ..st });
            },
        }
    } else if crate::text::starts_with_spec(a, "--"@) {
        let flag = split_flag(a).0;
        match find_by_first(flag_specs(), flag) {
            None => {
                assert(cli_error_about(e, args[i]));
            },
            Some(key) => match split_flag(a).1 {
                Some(v) => {
                    lemma_cli_errors_name_an_argument(args, i + 1, CliState { values: st.values.push((key, v)), ..st });
                },
                None => match next_value(args, i + 1, flag) {
                    Err(_) => {
                        assert(cli_error_about(e, args[i]));
                    },
                    Ok(v) => {
                        lemma_cli_errors_name_an_argument(args, i + 2, CliState { values: st.values.push((key, v)), ..st });
                    },
                },
            },
        }
    } else {
        assert(cli_error_about(e, args[i]));
    }
}

/// Whether `f` is the flag of some setting in the flag table.
pub open spec fn is_setting_flag(f: Seq<char>) -> bool {
    exists|k: int| 0 <= k < flag_specs().len() && #[trigger] flag_specs()[k].0 == f
}

/// The options that stand alone: they take no value.
pub open spec fn is_bare_option(a: Seq<char>) -> bool {
    a == "--help"@ || a == "-h"@ || a == "--version"@ || a == "-V"@ || a == "--use-process-env"@
}

/// Whether the argument `a` takes the next argument as its value:
/// `--env-file`, and a `--` option other than the bare ones written without
/// `=`.
pub open spec fn takes_next_value(a: Seq<char>) -> bool {
    a == "--env-file"@ || (crate::text::starts_with_spec(a, "--"@) && !is_bare_option(a)
        && split_flag(a).1 is None)
}

/// The positions at which the command line is read from `i` on: every
/// argument but the values that options take.
pub open spec fn cli_positions(args: Seq<Seq<char>>, i: int) -> Seq<int>
    decreases args.len() + 1 - i,
{
    if i < 0 || i >= args.len() {
        Seq::empty()
    } else {
        seq![i] + cli_positions(args, if takes_next_value(args[i]) { i + 2 } else { i + 1 })
    }
}

/// Whether the argument at `j` is refused, `command_given` telling whether a
/// subcommand was read before it: a second subcommand; a bare word that is
/// no subcommand, `-h` or `-V`; a `--` option other than `--help`,
/// `--version`, `--use-process-env` and `--env-file` whose text before `=`
/// is no setting flag; or an option that takes the next argument as its
/// value where that argument is missing or starts with `--`.
pub open spec fn cli_refuses_at(args: Seq<Seq<char>>, j: int, command_given: bool) -> bool {
    let a = args[j];
    ||| command_word(a) is Some && command_given
    ||| !crate::text::starts_with_spec(a, "--"@) && command_word(a) is None && a != "-h"@ && a != "-V"@
    ||| crate::text::starts_with_spec(a, "--"@) && !is_bare_option(a) && a != "--env-file"@
        && !is_setting_flag(split_flag(a).0)
    ||| takes_next_value(a) && (j + 1 >= args.len() || crate::text::starts_with_spec(args[j + 1], "--"@))
}

/// Whether a subcommand stands at one of the first `n` positions of `ps`.
pub open spec fn command_before(args: Seq<Seq<char>>, ps: Seq<int>, n: int) -> bool {
    exists|k: int| 0 <= k < n && #[trigger] command_word(args[ps[k]]) is Some
}

/// Whether the argument read at the `n`-th of the positions `ps` is refused.
pub open spec fn refused_at_index(args: Seq<Seq<char>>, ps: Seq<int>, n: int, command_given: bool) -> bool {
    cli_refuses_at(args, ps[n], command_given || command_before(args, ps, n))
}

/// Whether some argument read at the positions `ps` is refused.
pub open spec fn refused_among(args: Seq<Seq<char>>, ps: Seq<int>, command_given: bool) -> bool {
    exists|n: int| 0 <= n < ps.len() && #[trigger] refused_at_index(args, ps, n, command_given)
}

proof fn lemma_setting_flag_found(t: Seq<(Seq<char>, Seq<char>)>, f: Seq<char>)
    ensures
        find_by_first(t, f) is Some <==> exists|k: int| 0 <= k < t.len() && #[trigger] t[k].0 == f,
    decreases t.len(),
{
    if t.len() > 0 {
        lemma_setting_flag_found(t.drop_first(), f);
        if find_by_first(t, f) is None {
            assert forall|k: int| 0 <= k < t.len() implies #[trigger] t[k].0 != f by {
                if k > 0 {
                    assert(t.drop_first()[k - 1] == t[k]);
                }
            }
        } else if t[0].0 != f {
            let k = choose|k: int| 0 <= k < t.drop_first().len() && #[trigger] t.drop_first()[k].0 == f;
            assert(t[k + 1].0 == f);
        }
    }
}

proof fn lemma_refused_among_cons(args: Seq<Seq<char>>, i: int, rest: Seq<int>, given: bool)
    requires
        0 <= i < args.len(),
    ensures
        refused_among(args, seq![i] + rest, given) <==> (cli_refuses_at(args, i, given) || refused_among(
            args,
            rest,
            given || command_word(args[i]) is Some,
        )),
{
    let ps = seq![i] + rest;
    let g2 = given || command_word(args[i]) is Some;
    assert(ps[0] == i);
    assert forall|n: int| 0 <= n < rest.len() implies (given || command_before(args, ps, n + 1)) == (g2
        || command_before(args, rest, n)) && ps[n + 1] == rest[n] by {
        assert(ps[n + 1] == rest[n]);
        if command_before(args, ps, n + 1) {
            let k = choose|k: int| 0 <= k < n + 1 && #[trigger] command_word(args[ps[k]]) is Some;
            if k > 0 {
                assert(ps[k] == rest[k - 1]);
                assert(command_word(args[rest[k - 1]]) is Some);
            }
        }
        if command_before(args, rest, n) {
            let k = choose|k: int| 0 <= k < n && #[trigger] command_word(args[rest[k]]) is Some;
            assert(ps[k + 1] == rest[k]);
            assert(command_word(args[ps[k + 1]]) is Some);
        }
        if command_word(args[i]) is Some {
            assert(command_word(args[ps[0]]) is Some);
        }
    }
    if refused_among(args, ps, given) {
        let n = choose|n: int| 0 <= n < ps.len() && #[trigger] refused_at_index(args, ps, n, given);
        if n == 0 {
            assert(!command_before(args, ps, 0));
        } else {
            assert(refused_at_index(args, rest, n - 1, g2));
        }
    }
    if refused_among(args, rest, g2) {
        let n = choose|n: int| 0 <= n < rest.len() && #[trigger] refused_at_index(args, rest, n, g2);
        assert(refused_at_index(args, ps, n + 1, given));
    }
    if cli_refuses_at(args, i, given) {
        assert(!command_before(args, ps, 0));
        assert(refused_at_index(args, ps, 0, given));
    }
}

proof fn lemma_parse_refused_iff(args: Seq<Seq<char>>, i: int, st: CliState)
    requires
        0 <= i,
    ensures
        parse_from(args, i, st) is Err <==> refused_among(args, cli_positions(args, i), st.command is Some),
        parse_from(args, i, st) is Err ==> parse_from(args, i, st)->Err_0.0 == ErrorKind::Config,
    decreases args.len() - i,
{
    if i >= args.len() {
        assert(cli_positions(args, i).len() == 0);
    } else {
        let a = args[i];
        let step = if takes_next_value(a) { i + 2 } else { i + 1 };
        let rest = cli_positions(args, step);
        let given = st.command is Some;
        assert(cli_positions(args, i) == seq![i] + rest);
        lemma_refused_among_cons(args, i, rest, given);
        lemma_setting_flag_found(flag_specs(), split_flag(a).0);
        reveal_strlit("--");
        reveal_strlit("--help");
        reveal_strlit("--version");
        reveal_strlit("--use-process-env");
        reveal_strlit("--env-file");
        reveal_strlit("-h");
        reveal_strlit("-V");
        reveal_strlit("version");
        reveal_strlit("status");
        reveal_strlit("doctor");
        reveal_strlit("health");
        reveal_strlit("ready");
        if crate::text::starts_with_spec(a, "--"@) {
            assert(a[0] == a.take(2)[0]);
            assert(a[1] == a.take(2)[1]);
        }
        if a == "-h"@ || a == "-V"@ {
            assert(a[1] != '-');
        }
        if a.len() >= 2 && a[0] == '-' && a[1] == '-' {
            assert(a.take(2) =~= "--"@);
        }
        if command_word(a) is Some {
            assert(a[0] != '-');
        }
        if command_word(a) is Some && st.command is None {
            assert(!takes_next_value(a));
            assert(!cli_refuses_at(args, i, given));
            lemma_parse_refused_iff(args, i + 1, CliState { command: command_word(a), ..st });
        } else if a == "--help"@ || a == "-h"@ {
            assert(command_word(a) is None);
            assert(!takes_next_value(a));
            assert(!cli_refuses_at(args, i, given));
            lemma_parse_refused_iff(args, i + 1, CliState { help: true, ..st });
        } else if a == "--version"@ {
            assert(command_word(a) is None);
            assert(!takes_next_value(a));
            assert(!cli_refuses_at(args, i, given));
            lemma_parse_refused_iff(args, i + 1, CliState { version: true, ..st });
        } else if a == "-V"@ {
            assert(command_word(a) is None);
            assert(!takes_next_value(a));
            assert(!cli_refuses_at(args, i, given));
            lemma_parse_refused_iff(args, i + 1, CliState { verbose_version: true, ..st });
        } else if a == "--use-process-env"@ {
            assert(command_word(a) is None);
            assert(!takes_next_value(a));
            assert(!cli_refuses_at(args, i, given));
            lemma_parse_refused_iff(args, i + 1, CliState { use_process_env: true, ..st });
        } else if a == "--env-file"@ {
            assert(command_word(a) is None);
            assert(takes_next_value(a));
            match next_value(args, i + 1, a) {
                Err(_) => {
                    assert(cli_refuses_at(args, i, given));
                },
                Ok(v) => {
                    assert(!cli_refuses_at(args, i, given));
                    lemma_parse_refused_iff(args, i + 2, CliState { env_file: Some(v), ..st });
                },
            }
        } else if crate::text::starts_with_spec(a, "--"@) {
            let flag = split_flag(a).0;
            assert(command_word(a) is None);
            assert(!is_bare_option(a));
            match find_by_first(flag_specs(), flag) {
                None => {
                    assert(cli_refuses_at(args, i, given));
                },
                Some(key) => match split_flag(a).1 {
                    Some(v) => {
                        assert(!takes_next_value(a));
                        assert(!cli_refuses_at(args, i, given));
                        lemma_parse_refused_iff(args, i + 1, CliState { values: st.values.push((key, v)), ..st });
                    },
                    None => match next_value(args, i + 1, flag) {
                        Err(_) => {
                            assert(takes_next_value(a));
                            assert(cli_refuses_at(args, i, given));
                        },
                        Ok(v) => {
                            assert(takes_next_value(a));
                            assert(!cli_refuses_at(args, i, given));
                            lemma_parse_refused_iff(args, i + 2, CliState { values: st.values.push((key, v)), ..st });
                        },
                    },
                },
            }
        } else {
            assert(cli_refuses_at(args, i, given));
        }
    }
}

/// The command line is refused exactly when, reading its arguments after the
/// program name in turn (skipping the values that options take), one of them
/// is refused (see `cli_refuses_at`); every refusal is a configuration error.
pub proof fn lemma_cli_refused_iff(args: Seq<Seq<char>>)
    ensures
        parse_cli_spec(args) is Err <==> refused_among(args, cli_positions(args, 1), false),
        parse_cli_spec(args) is Err ==> parse_cli_spec(args)->Err_0.0 == ErrorKind::Config,
{
    lemma_parse_refused_iff(args, 1, initial_cli());
}

/// The command line `args`, whose first element is the program name.
pub open spec fn parse_cli_spec(args: Seq<Seq<char>>) -> Result<CliState, ErrorView> {
    parse_from(args, 1, initial_cli())
}

fn command_of(a: &str) -> (r: Option<CliCommand>)
    ensures
        r == command_word(a@),
{
    if str_eq(a, "version") {
        Some(CliCommand::Version)
    } else if str_eq(a, "status") {
        Some(CliCommand::Status)
    } else if str_eq(a, "doctor") {
        Some(CliCommand::Doctor)
    } else if str_eq(a, "health") {
        Some(CliCommand::Health)
    } else if str_eq(a, "ready") {
        Some(CliCommand::Ready)
    } else {
        None
    }
}

fn starts_with_dashes(a: &str) -> (r: bool)
    ensures
        r == crate::text::starts_with_spec(a@, "--"@),
{
    let v = chars_of(a);
    let p = chars_of("--");
    crate::text::starts_with(&v, &p)
}

fn next_arg_value(args: &Vec<String>, j: usize, flag: &str) -> (r: Result<String, BridgeError>)
    ensures
        match r {
            Ok(v) => next_value(strings_view(args@), j as int, flag@) == Ok::<Seq<char>, ErrorView>(
                v@,
            ),
            Err(e) => next_value(strings_view(args@), j as int, flag@) == Err::<
                Seq<char>,
                ErrorView,
            >(e@),
        },
{
    if j >= args.len() || starts_with_dashes(args[j].as_str()) {
        let mut m = string_from(flag);
        push_str(&mut m, " requires a value");
        return Err(BridgeError::Config(m));
    }
    Ok(string_from(args[j].as_str()))
}

fn split_flag_value(a: &str) -> (r: (String, Option<String>))
    ensures
        (r.0@, opt_str(r.1)) == split_flag(a@),
{
    let v = chars_of(a);
    let eq = chars_of("=");
    proof {
        reveal_strlit("=");
    }
    match crate::text::find_in(&v, &eq, 0) {
        Some(p) => {
            assert(v@.subrange(0, p as int) == v@.take(p as int));
            assert(v@.subrange(p + 1, v.len() as int) == v@.skip(p + 1));
            (string_of_range(&v, 0, p), Some(string_of_range(&v, p + 1, v.len())))
        },
        None => (string_from(a), None),
    }
}

impl CliConfig {
    /// Parses the command line; the first argument is the program name.
    pub fn parse(args: &Vec<String>) -> (r: Result<CliConfig, BridgeError>)
        ensures
            match r {
                Ok(c) => parse_cli_spec(strings_view(args@)) == Ok::<CliState, ErrorView>(c@),
                Err(e) => parse_cli_spec(strings_view(args@)) == Err::<CliState, ErrorView>(e@),
            },
    {
        let ghost sv = strings_view(args@);
        let table = flag_table();
        let mut config = CliConfig {
            env_file: None,
            use_process_env: false,
            help: false,
            version: false,
            verbose_version: false,
            command: None,
            values: Vec::new(),
        };
        assert(pairs_view(config.values@) =~= Seq::<(Seq<char>, Seq<char>)>::empty());
        assert(config@ == initial_cli());
        let mut i: usize = 1;
        while i < args.len()
            invariant
                sv == strings_view(args@),
                crate::config::tables::table_view(table@) == flag_specs(),
                1 <= i,
                parse_cli_spec(sv) == parse_from(sv, i as int, config@),
            decreases args.len() - i,
        {
            let a = args[i].as_str();
            assert(sv[i as int] == a@);
            let cmd = command_of(a);
            if cmd.is_some() && config.command.is_none() {
                config.command = cmd;
                i += 1;
            } else if str_eq(a, "--help") || str_eq(a, "-h") {
                config.help = true;
                i += 1;
            } else if str_eq(a, "--version") {
                config.version = true;
                i += 1;
            } else if str_eq(a, "-V") {
                config.verbose_version = true;
                i += 1;
            } else if str_eq(a, "--use-process-env") {
                config.use_process_env = true;
                i += 1;
            } else if str_eq(a, "--env-file") {
                let v = next_arg_value(args, i + 1, a)?;
                config.env_file = Some(v);
                i += 2;
            } else if starts_with_dashes(a) {
                let (flag, inline_value) = split_flag_value(a);
                let key = match lookup_first(&table, flag.as_str()) {
                    Some(k) => k,
                    None => {
                        let mut m = string_from("unknown option: ");
                        push_str(&mut m, flag.as_str());
                        return Err(BridgeError::Config(m));
                    },
                };
                let value = match inline_value {
                    Some(v) => {
                        i += 1;
                        v
                    },
                    None => {
                        let v = next_arg_value(args, i + 1, flag.as_str())?;
                        i += 2;
                        v
                    },
                };
                let ghost before = config.values@;
                config.values.push((string_from(key), value));
                assert(pairs_view(config.values@) == pairs_view(before).push((key@, value@)));
            } else {
                let mut m = string_from("unexpected argument: ");
                push_str(&mut m, a);
                return Err(BridgeError::Config(m));
            }
        }
        Ok(config)
    }
}

/// What a run of the program does for a command line.
#[derive(Debug, Clone, Copy, PartialEq, Eq, Structural)]
pub enum CliAction {
    PrintHelp,
    PrintVersion,
    PrintVerboseVersion,
    Status,
    Doctor,
    Health,
    Ready,
    Serve,
}

/// Help first, then the version (flag or subcommand), then `-V`, then the
/// other subcommands; with none of them the service runs.
pub open spec fn action_spec(cli: CliState) -> CliAction {
    if cli.help {
        CliAction::PrintHelp
    } else if cli.version || cli.command == Some(CliCommand::Version) {
        CliAction::PrintVersion
    } else if cli.verbose_version {
        CliAction::PrintVerboseVersion
    } else {
        match cli.command {
            Some(CliCommand::Status) => CliAction::Status,
            Some(CliCommand::Doctor) => CliAction::Doctor,
            Some(CliCommand::Health) => CliAction::Health,
            Some(CliCommand::Ready) => CliAction::Ready,
            _ => CliAction::Serve,
        }
    }
}

impl CliConfig {
    /// What the program does for this command line (see `action_spec`).
    pub fn action(&self) -> (r: CliAction)
        ensures
            r == action_spec(self@),
    {
        if self.help {
            CliAction::PrintHelp
        } else if self.version || self.command == Some(CliCommand::Version) {
            CliAction::PrintVersion
        } else if self.verbose_version {
            CliAction::PrintVerboseVersion
        } else {
            match self.command {
                Some(CliCommand::Status) => CliAction::Status,
                Some(CliCommand::Doctor) => CliAction::Doctor,
                Some(CliCommand::Health) => CliAction::Health,
                Some(CliCommand::Ready) => CliAction::Ready,
                _ => CliAction::Serve,
            }
        }
    }
}

} // verus!
