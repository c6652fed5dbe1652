//! The command line's decision logic: which parser a command line goes to,
//! output formats, and how subcommand options and stored defaults become
//! the settings of a probe run.
use vstd::prelude::*;
use crate::config::Defaults;
use crate::text::{same_text, texts};

verus! {

/// The subcommand keywords of the modern command line.
pub open spec fn is_keyword(s: Seq<char>) -> bool {
    ||| s == "ntp"@
    ||| s == "compare"@
    ||| s == "sync"@
    ||| s == "diag"@
    ||| s == "config"@
    ||| s == "preset"@
}

/// Whether `s` is one of the modern subcommand keywords.
pub fn is_new_keyword(s: &str) -> (b: bool)
    ensures
        b == is_keyword(s@),
{
    same_text(s, "ntp") || same_text(s, "compare") || same_text(s, "sync")
        || same_text(s, "diag") || same_text(s, "config") || same_text(s, "preset")
}

/// Which parser handles a command line.
#[derive(Debug, Clone)]
pub enum Mode {
    /// The subcommand parser.
    Modern,
    /// The one-shot parser kept for scripts that call `rkik <target>`.
    Legacy,
    /// `rkik help [command...]`: print the help of that command path.
    Help(Vec<String>),
}

/// Flags that the modern parser answers even without a subcommand.
pub open spec fn is_modern_flag(s: Seq<char>) -> bool {
    s == "-h"@ || s == "--help"@ || s == "-V"@ || s == "--version"@
}

/// How `detect_mode` routes the arguments that follow the program name:
/// none go to the modern parser; `help` first asks for help on the rest;
/// a subcommand keyword or one of the modern parser's own flags goes to the
/// modern parser; anything else to the legacy one.
pub open spec fn routed(args: Seq<String>, m: Mode) -> bool {
    &&& args.len() == 0 ==> m is Modern
    &&& args.len() > 0 && args[0]@ == "help"@ ==> (m matches Mode::Help(rest) && rest@ == args.skip(1))
    &&& args.len() > 0 && args[0]@ != "help"@ ==> {
        if is_keyword(args[0]@) || is_modern_flag(args[0]@) {
            m is Modern
        } else {
            m is Legacy
        }
    }
}

/// Chooses the parser from the arguments that follow the program name.
/// `-h`, `--help`, `-V` and `--version` given first go to the modern
/// parser, which answers them.
pub fn detect_mode(args: &Vec<String>) -> (m: Mode)
    ensures
        routed(args@, m),
        args@.len() > 0 && (args@[0]@ == "-h"@ || args@[0]@ == "--help"@ || args@[0]@ == "-V"@
            || args@[0]@ == "--version"@) ==> m is Modern,
        args@.len() > 0 && (args@[0]@ == "ntp"@ || args@[0]@ == "compare"@ || args@[0]@ == "sync"@
            || args@[0]@ == "diag"@ || args@[0]@ == "config"@ || args@[0]@ == "preset"@) ==> m is Modern,
        args@.len() > 0 && args@[0]@ == "help"@ ==> (m matches Mode::Help(rest) && rest@ == args@.skip(1)),
{
    let m = if args.len() == 0 {
        Mode::Modern
    } else {
        let first = args[0].as_str();
        if same_text(first, "help") {
            let mut rest: Vec<String> = Vec::new();
            let mut i: usize = 1;
            while i < args.len()
                invariant
                    1 <= i <= args@.len(),
                    rest@ == args@.subrange(1, i as int),
                decreases args@.len() - i,
            {
                rest.push(args[i].clone());
                assert(rest@ =~= args@.subrange(1, i + 1));
                i = i + 1;
            }
            assert(args@.subrange(1, args@.len() as int) =~= args@.skip(1));
            Mode::Help(rest)
        } else if is_new_keyword(first) || same_text(first, "-h") || same_text(first, "--help")
            || same_text(first, "-V") || same_text(first, "--version") {
            Mode::Modern
        } else {
            Mode::Legacy
        }
    };
    proof {
        if args@.len() > 0 {
            lemma_modern_routes(args@, m);
        }
    }
    m
}

/// Output formats of a probe run.
#[derive(Debug, Clone, Copy, PartialEq, Eq, Structural)]
pub enum OutputFormat {
    Text,
    Json,
    JsonShort,
    Simple,
    Csv,
}

/// The name of each format on the command line and in the config file.
pub open spec fn format_name(f: OutputFormat) -> Seq<char> {
    match f {
        OutputFormat::Text => "text"@,
        OutputFormat::Json => "json"@,
        OutputFormat::JsonShort => "json-short"@,
        OutputFormat::Simple => "simple"@,
        OutputFormat::Csv => "csv"@,
    }
}

/// The format a name stands for, if any.
pub open spec fn parse_format(s: Seq<char>) -> Option<OutputFormat> {
    if s == "text"@ {
        Some(OutputFormat::Text)
    } else if s == "json"@ {
        Some(OutputFormat::Json)
    } else if s == "json-short"@ {
        Some(OutputFormat::JsonShort)
    } else if s == "simple"@ {
        Some(OutputFormat::Simple)
    } else if s == "csv"@ {
        Some(OutputFormat::Csv)
    } else {
        None
    }
}

impl OutputFormat {
    /// The format's name.
    pub fn as_str(&self) -> (s: &'static str)
        ensures
            s@ == format_name(*self),
    {
        match self {
            OutputFormat::Text => "text",
            OutputFormat::Json => "json",
            OutputFormat::JsonShort => "json-short",
            OutputFormat::Simple => "simple",
            OutputFormat::Csv => "csv",
        }
    }

    /// The format with exactly this name (names are case-sensitive).
    pub fn from_name(raw: &str) -> (f: Option<OutputFormat>)
        ensures
            f == parse_format(raw@),
    {
        if same_text(raw, "text") {
            Some(OutputFormat::Text)
        } else if same_text(raw, "json") {
            Some(OutputFormat::Json)
        } else if same_text(raw, "json-short") {
            Some(OutputFormat::JsonShort)
        } else if same_text(raw, "simple") {
            Some(OutputFormat::Simple)
        } else if same_text(raw, "csv") {
            Some(OutputFormat::Csv)
        } else {
            None
        }
    }
}

/// Reading a format's name gives the format back.
pub proof fn lemma_format_name_roundtrip(f: OutputFormat)
    ensures
        parse_format(format_name(f)) == Some(f),
{
    reveal_strlit("text");
    reveal_strlit("json");
    reveal_strlit("json-short");
    reveal_strlit("simple");
    reveal_strlit("csv");
    // Distinct names differ in their first character or in their length.
    assert("text"@[0] != "json"@[0] && "text"@[0] != "simple"@[0] && "text"@[0] != "csv"@[0]);
    assert("json"@.len() != "json-short"@.len());
    assert("json"@[0] != "simple"@[0] && "json"@[0] != "csv"@[0]);
    assert("simple"@[0] != "csv"@[0]);
}

/// The NTS-KE port used when none is given.
pub const DEFAULT_NTS_PORT: u16 = 4460;

/// Options shared by the probing subcommands. `S` holds seconds.
#[derive(Debug, Clone)]
pub struct ProbeOptions<S> {
    /// Number of requests to perform
    pub count: Option<u32>,
    /// Interval between requests (s)
    pub interval: Option<S>,
    /// Timeout per request (s)
    pub timeout: Option<S>,
    /// Run until interrupted
    pub infinite: bool,
    /// Force IPv6 resolution
    pub ipv6: bool,
}

/// Output options of the probing subcommands.
#[derive(Debug, Clone)]
pub struct OutputOptions {
    /// Verbose / human-friendly output
    pub verbose: bool,
    /// Output format
    pub format: Option<OutputFormat>,
    /// Shortcut for `--format json`
    pub json: bool,
    /// Shortcut for `--format simple`
    pub short: bool,
    /// Pretty-print JSON
    pub pretty: bool,
    /// Disable colors
    pub no_color: bool,
}

/// Monitoring-plugin options. Thresholds are in milliseconds.
#[derive(Debug, Clone)]
pub struct PluginOptions<S> {
    /// Emit Centreon/Nagios plugin output
    pub plugin: bool,
    /// Warning threshold (ms)
    pub warning: Option<S>,
    /// Critical threshold (ms)
    pub critical: Option<S>,
}

/// Network Time Security options.
#[derive(Debug, Clone)]
pub struct NtsOptions {
    /// Enable Network Time Security
    pub nts: bool,
    /// NTS-KE port
    pub nts_port: u16,
}

/// `rkik ntp`: a standard probe loop.
#[derive(Debug, Clone)]
pub struct NtpCommand<S> {
    pub common: ProbeOptions<S>,
    pub output: OutputOptions,
    pub plugin: PluginOptions<S>,
    pub nts: NtsOptions,
    /// Target host (hostname or IP)
    pub target: Option<String>,
}

/// `rkik compare`: several servers queried concurrently.
#[derive(Debug, Clone)]
pub struct CompareCommand<S> {
    pub common: ProbeOptions<S>,
    pub output: OutputOptions,
    pub nts: NtsOptions,
    /// Servers to compare
    pub targets: Vec<String>,
}

/// `rkik sync`: one-shot synchronization.
#[derive(Debug, Clone)]
pub struct SyncCommand<S> {
    pub common: ProbeOptions<S>,
    pub output: OutputOptions,
    /// Skip actually setting the time
    pub dry_run: bool,
    /// Target to synchronize with
    pub target: String,
}

/// `rkik diag`: diagnostics for a single target.
#[derive(Debug, Clone)]
pub struct DiagCommand<S> {
    pub common: ProbeOptions<S>,
    /// Target to diagnose
    pub target: String,
}

/// The built-in interval and timeout, used when neither the command line
/// nor the stored defaults give one.
#[derive(Debug, Clone, Copy)]
pub struct ProbeTiming<S> {
    pub interval: S,
    pub timeout: S,
}

/// The settings of one probe run.
#[derive(Debug, Clone)]
pub struct LegacyArgs<S> {
    pub target: Option<String>,
    pub compare: Option<Vec<String>>,
    pub count: u32,
    pub interval: S,
    pub timeout: S,
    pub infinite: bool,
    pub ipv6: bool,
    pub verbose: bool,
    pub format: OutputFormat,
    pub pretty: bool,
    pub no_color: bool,
    pub plugin: bool,
    pub warning: Option<S>,
    pub critical: Option<S>,
    pub nts: bool,
    pub nts_port: u16,
    pub sync: bool,
    pub dry_run: bool,
}

/// The first value that is given: the command line's, then the stored one,
/// then the built-in one.
pub open spec fn first_given<T>(cli: Option<T>, stored: Option<T>, builtin: T) -> T {
    match cli {
        Some(v) => v,
        None => match stored {
            Some(v) => v,
            None => builtin,
        },
    }
}

/// Settings before any option is applied.
pub open spec fn blank_args<S>(timing: ProbeTiming<S>) -> LegacyArgs<S> {
    LegacyArgs {
        target: None,
        compare: None,
        count: 1,
        interval: timing.interval,
        timeout: timing.timeout,
        infinite: false,
        ipv6: false,
        verbose: false,
        format: OutputFormat::Text,
        pretty: false,
        no_color: false,
        plugin: false,
        warning: None,
        critical: None,
        nts: false,
        nts_port: DEFAULT_NTS_PORT,
        sync: false,
        dry_run: false,
    }
}

/// `a` with the probe options applied.
pub open spec fn with_probe<S>(
    a: LegacyArgs<S>,
    opts: ProbeOptions<S>,
    defaults: Defaults<S>,
    timing: ProbeTiming<S>,
) -> LegacyArgs<S> {
    LegacyArgs {
        count: first_given(opts.count, None, 1u32),
        interval: first_given(opts.interval, None, timing.interval),
        timeout: first_given(opts.timeout, defaults.timeout, timing.timeout),
        infinite: opts.infinite,
        ipv6: opts.ipv6 || first_given(None, defaults.ipv6_only, false),
        ..a
    }
}

/// The stored default format, when it names one.
pub open spec fn stored_format(stored: Option<String>) -> Option<OutputFormat> {
    match stored {
        Some(raw) => parse_format(raw@),
        None => None,
    }
}

/// A stored default format that names no format.
pub open spec fn stored_format_invalid(stored: Option<String>) -> bool {
    stored matches Some(raw) && parse_format(raw@) is None
}

pub open spec fn invalid_default_format_message(raw: Seq<char>) -> Seq<char> {
    "Invalid default format '"@ + raw + "' in rkik config. Use text, json, json-short, or simple."@
}

/// The format a run uses: `--json`, then `--short`, then `--format`, then
/// the stored default, then text.
pub open spec fn chosen_format(opts: OutputOptions, stored: Option<OutputFormat>) -> OutputFormat {
    if opts.json {
        OutputFormat::Json
    } else if opts.short {
        OutputFormat::Simple
    } else {
        first_given(opts.format, stored, OutputFormat::Text)
    }
}

/// `a` with the output flags and the given format.
pub open spec fn with_output<S>(a: LegacyArgs<S>, opts: OutputOptions, format: OutputFormat) -> LegacyArgs<S> {
    LegacyArgs { verbose: opts.verbose, pretty: opts.pretty, no_color: opts.no_color, format, ..a }
}

/// Whether applying the output options fails: no `--format` was given and
/// the stored default names no format.
pub open spec fn output_fails(opts: OutputOptions, stored: Option<String>) -> bool {
    opts.format is None && stored_format_invalid(stored)
}

/// `a` with the plugin options.
pub open spec fn with_plugin<S>(a: LegacyArgs<S>, opts: PluginOptions<S>) -> LegacyArgs<S> {
    LegacyArgs { plugin: opts.plugin, warning: opts.warning, critical: opts.critical, ..a }
}

/// `a` with the NTS options.
pub open spec fn with_nts<S>(a: LegacyArgs<S>, opts: NtsOptions) -> LegacyArgs<S> {
    LegacyArgs { nts: opts.nts, nts_port: opts.nts_port, ..a }
}

impl<S: Copy> LegacyArgs<S> {
    /// Settings before any option is applied.
    pub fn new(timing: &ProbeTiming<S>) -> (a: Self)
        ensures
            a == blank_args(*timing),
    {
        LegacyArgs {
            target: None,
            compare: None,
            count: 1,
            interval: timing.interval,
            timeout: timing.timeout,
            infinite: false,
            ipv6: false,
            verbose: false,
            format: OutputFormat::Text,
            pretty: false,
            no_color: false,
            plugin: false,
            warning: None,
            critical: None,
            nts: false,
            nts_port: DEFAULT_NTS_PORT,
            sync: false,
            dry_run: false,
        }
    }
}

/// Reads the stored default format, if one is stored.
pub fn parse_default_format<S>(defaults: &Defaults<S>) -> (r: Result<Option<OutputFormat>, String>)
    ensures
        r is Ok <==> !stored_format_invalid(defaults.format),
        r matches Ok(f) ==> f == stored_format(defaults.format),
        r matches Err(m) ==> m@ == invalid_default_format_message(defaults.format->Some_0@),
{
    match &defaults.format {
        Some(raw) => match OutputFormat::from_name(raw.as_str()) {
            Some(f) => Ok(Some(f)),
            None => {
                let mut m = String::from_str("Invalid default format '");
                m.append(raw.as_str());
                m.append("' in rkik config. Use text, json, json-short, or simple.");
                Err(m)
            },
        },
        None => Ok(None),
    }
}

/// Applies the probe options: count (default 1), interval (default the
/// built-in one), timeout (command line, then stored default, then
/// built-in), the infinite flag, and IPv6 (flag or stored default).
pub fn apply_probe_options<S: Copy>(
    args: &mut LegacyArgs<S>,
    opts: &ProbeOptions<S>,
    defaults: &Defaults<S>,
    timing: &ProbeTiming<S>,
)
    ensures
        *final(args) == with_probe(*old(args), *opts, *defaults, *timing),
        opts.ipv6 ==> final(args).ipv6,
        defaults.ipv6_only is None ==> final(args).ipv6 == opts.ipv6,
        defaults.ipv6_only == Some(true) ==> final(args).ipv6,
        opts.timeout matches Some(t) ==> final(args).timeout == t,
        opts.timeout is None ==> (defaults.timeout matches Some(t) ==> final(args).timeout == t),
        opts.count is None ==> final(args).count == 1,
{
    args.count = match opts.count { Some(c) => c, None => 1 };
    args.interval = match opts.interval { Some(i) => i, None => timing.interval };
    args.timeout = match opts.timeout {
        Some(t) => t,
        None => match defaults.timeout { Some(t) => t, None => timing.timeout },
    };
    args.infinite = opts.infinite;
    args.ipv6 = opts.ipv6 || match defaults.ipv6_only { Some(b) => b, None => false };
}

/// Applies the output options. The flags are copied first; the format is
/// then chosen, and the call fails, leaving the format unchanged, when no
/// `--format` is given and the stored default names no format.
pub fn apply_output_options<S>(
    args: &mut LegacyArgs<S>,
    opts: &OutputOptions,
    defaults: &Defaults<S>,
) -> (r: Result<(), String>)
    ensures
        r is Err <==> output_fails(*opts, defaults.format),
        r is Ok ==> *final(args) == with_output(*old(args), *opts,
            chosen_format(*opts, stored_format(defaults.format))),
        r matches Err(m) ==> {
            &&& *final(args) == with_output(*old(args), *opts, old(args).format)
            &&& m@ == invalid_default_format_message(defaults.format->Some_0@)
        },
{
    args.verbose = opts.verbose;
    args.pretty = opts.pretty;
    args.no_color = opts.no_color;
    let mut format = opts.format;
    if format.is_none() {
        let stored = parse_default_format(defaults)?;
        if let Some(cfg_fmt) = stored {
            format = Some(cfg_fmt);
        }
    }
    let mut format = match format { Some(f) => f, None => OutputFormat::Text };
    if opts.json {
        format = OutputFormat::Json;
    } else if opts.short {
        format = OutputFormat::Simple;
    }
    args.format = format;
    Ok(())
}

/// Copies the plugin options.
pub fn apply_plugin_options<S: Copy>(args: &mut LegacyArgs<S>, opts: &PluginOptions<S>)
    ensures
        *final(args) == with_plugin(*old(args), *opts),
{
    args.plugin = opts.plugin;
    args.warning = opts.warning;
    args.critical = opts.critical;
}

pub open spec fn missing_target_message() -> Seq<char> {
    "Provide a target (e.g. rkik ntp pool.ntp.org)"@
}

pub open spec fn too_few_targets_message() -> Seq<char> {
    "Comparison requires at least two targets"@
}

/// The settings of `rkik ntp`, when they can be built.
pub open spec fn ntp_args<S>(cmd: NtpCommand<S>, defaults: Defaults<S>, timing: ProbeTiming<S>) -> LegacyArgs<S> {
    let a = LegacyArgs { target: cmd.target, ..blank_args(timing) };
    let a = with_probe(a, cmd.common, defaults, timing);
    let a = with_output(a, cmd.output, chosen_format(cmd.output, stored_format(defaults.format)));
    with_nts(with_plugin(a, cmd.plugin), cmd.nts)
}

/// The settings of `rkik compare`, when they can be built.
pub open spec fn compare_args<S>(cmd: CompareCommand<S>, defaults: Defaults<S>, timing: ProbeTiming<S>) -> LegacyArgs<S> {
    let a = LegacyArgs { compare: Some(cmd.targets), ..blank_args(timing) };
    let a = with_probe(a, cmd.common, defaults, timing);
    let a = with_output(a, cmd.output, chosen_format(cmd.output, stored_format(defaults.format)));
    with_nts(a, cmd.nts)
}

/// The settings of `rkik sync`, when they can be built.
pub open spec fn sync_args<S>(cmd: SyncCommand<S>, defaults: Defaults<S>, timing: ProbeTiming<S>) -> LegacyArgs<S> {
    let a = LegacyArgs { target: Some(cmd.target), sync: true, dry_run: cmd.dry_run, ..blank_args(timing) };
    let a = with_probe(a, cmd.common, defaults, timing);
    with_output(a, cmd.output, chosen_format(cmd.output, stored_format(defaults.format)))
}

/// The settings of `rkik diag`: one verbose text probe.
pub open spec fn diag_args<S>(cmd: DiagCommand<S>, defaults: Defaults<S>, timing: ProbeTiming<S>) -> LegacyArgs<S> {
    LegacyArgs {
        target: Some(cmd.target),
        verbose: true,
        count: 1,
        interval: first_given(cmd.common.interval, None, timing.interval),
        timeout: first_given(cmd.common.timeout, defaults.timeout, timing.timeout),
        ipv6: cmd.common.ipv6 || first_given(None, defaults.ipv6_only, false),
        format: OutputFormat::Text,
        pretty: false,
        infinite: false,
        plugin: false,
        no_color: false,
        ..blank_args(timing)
    }
}

/// Builds the settings of `rkik ntp`. Fails when no target is given, or
/// when the stored default format is invalid and no `--format` is given.
pub fn build_ntp_args<S: Copy>(
    cmd: NtpCommand<S>,
    defaults: &Defaults<S>,
    timing: &ProbeTiming<S>,
) -> (r: Result<LegacyArgs<S>, String>)
    ensures
        r is Ok <==> cmd.target is Some && !output_fails(cmd.output, defaults.format),
        r matches Ok(a) ==> a == ntp_args(cmd, *defaults, *timing),
        r matches Ok(a) ==> a.target == cmd.target && a.compare is None,
        r matches Ok(a) ==> a.nts == cmd.nts.nts && a.nts_port == cmd.nts.nts_port,
        r matches Ok(a) ==> (cmd.common.ipv6 ==> a.ipv6),
        r matches Err(m) ==> m@ == (if cmd.target is None { missing_target_message() } else {
            invalid_default_format_message(defaults.format->Some_0@)
        }),
{
    let mut args = LegacyArgs::new(timing);
    if cmd.target.is_some() {
        args.target = cmd.target;
    } else {
        return Err(String::from_str("Provide a target (e.g. rkik ntp pool.ntp.org)"));
    }
    apply_probe_options(&mut args, &cmd.common, defaults, timing);
    apply_output_options(&mut args, &cmd.output, defaults)?;
    apply_plugin_options(&mut args, &cmd.plugin);
    args.nts = cmd.nts.nts;
    args.nts_port = cmd.nts.nts_port;
    Ok(args)
}

/// Builds the settings of `rkik compare`. Fails with fewer than two
/// targets, or when the stored default format is invalid and no `--format`
/// is given.
pub fn build_compare_args<S: Copy>(
    cmd: CompareCommand<S>,
    defaults: &Defaults<S>,
    timing: &ProbeTiming<S>,
) -> (r: Result<LegacyArgs<S>, String>)
    ensures
        r is Ok <==> cmd.targets.len() >= 2 && !output_fails(cmd.output, defaults.format),
        r matches Ok(a) ==> a == compare_args(cmd, *defaults, *timing),
        r matches Ok(a) ==> a.nts == cmd.nts.nts && a.nts_port == cmd.nts.nts_port,
        r matches Ok(a) ==> a.compare == Some(cmd.targets) && a.target is None,
        r matches Ok(a) ==> (cmd.common.ipv6 ==> a.ipv6),
        r matches Err(m) ==> m@ == (if cmd.targets.len() < 2 { too_few_targets_message() } else {
            invalid_default_format_message(defaults.format->Some_0@)
        }),
{
    if cmd.targets.len() < 2 {
        return Err(String::from_str("Comparison requires at least two targets"));
    }
    let mut args = LegacyArgs::new(timing);
    args.compare = Some(cmd.targets);
    apply_probe_options(&mut args, &cmd.common, defaults, timing);
    apply_output_options(&mut args, &cmd.output, defaults)?;
    args.nts = cmd.nts.nts;
    args.nts_port = cmd.nts.nts_port;
    Ok(args)
}

/// Builds the settings of `rkik sync`. Fails when the stored default format
/// is invalid and no `--format` is given.
pub fn build_sync_args<S: Copy>(
    cmd: SyncCommand<S>,
    defaults: &Defaults<S>,
    timing: &ProbeTiming<S>,
) -> (r: Result<LegacyArgs<S>, String>)
    ensures
        r is Ok <==> !output_fails(cmd.output, defaults.format),
        r matches Ok(a) ==> a == sync_args(cmd, *defaults, *timing),
        r matches Ok(a) ==> a.target == Some(cmd.target) && a.sync && a.dry_run == cmd.dry_run,
        r matches Ok(a) ==> (cmd.common.ipv6 ==> a.ipv6),
        r matches Err(m) ==> m@ == invalid_default_format_message(defaults.format->Some_0@),
{
    let mut args = LegacyArgs::new(timing);
    args.target = Some(cmd.target);
    args.sync = true;
    args.dry_run = cmd.dry_run;
    apply_probe_options(&mut args, &cmd.common, defaults, timing);
    apply_output_options(&mut args, &cmd.output, defaults)?;
    Ok(args)
}

/// Builds the settings of `rkik diag`.
pub fn build_diag_args<S: Copy>(
    cmd: DiagCommand<S>,
    defaults: &Defaults<S>,
    timing: &ProbeTiming<S>,
) -> (a: LegacyArgs<S>)
    ensures
        a == diag_args(cmd, *defaults, *timing),
        a.target == Some(cmd.target) && a.verbose && a.count == 1,
        cmd.common.ipv6 ==> a.ipv6,
{
    let mut args = LegacyArgs::new(timing);
    args.target = Some(cmd.target);
    args.verbose = true;
    args.count = 1;
    args.interval = match cmd.common.interval { Some(i) => i, None => timing.interval };
    args.timeout = match cmd.common.timeout {
        Some(t) => t,
        None => match defaults.timeout { Some(t) => t, None => timing.timeout },
    };
    args.ipv6 = cmd.common.ipv6 || match defaults.ipv6_only { Some(b) => b, None => false };
    args.format = OutputFormat::Text;
    args.pretty = false;
    args.infinite = false;
    args.plugin = false;
    args.no_color = false;
    args
}

/// The probing subcommands.
#[derive(Debug, Clone)]
pub enum ProbeCommand<S> {
    Ntp(NtpCommand<S>),
    Compare(CompareCommand<S>),
    Sync(SyncCommand<S>),
    Diag(DiagCommand<S>),
}

pub open spec fn compare_needs_two_message() -> Seq<char> {
    "Provide at least two targets to compare"@
}

/// The settings of the run a probing subcommand asks for.
pub fn plan_probe<S: Copy>(
    cmd: ProbeCommand<S>,
    defaults: &Defaults<S>,
    timing: &ProbeTiming<S>,
) -> (r: Result<LegacyArgs<S>, String>)
    ensures
        match cmd {
            ProbeCommand::Ntp(c) => {
                &&& r is Ok <==> c.target is Some && !output_fails(c.output, defaults.format)
                &&& r matches Ok(a) ==> a == ntp_args(c, *defaults, *timing)
                &&& r matches Err(m) ==> m@ == (if c.target is None { missing_target_message() } else {
                    invalid_default_format_message(defaults.format->Some_0@) })
            },
            ProbeCommand::Compare(c) => {
                &&& r is Ok <==> c.targets.len() >= 2 && !output_fails(c.output, defaults.format)
                &&& r matches Ok(a) ==> a == compare_args(c, *defaults, *timing)
                &&& r matches Err(m) ==> m@ == (if c.targets.len() < 2 { compare_needs_two_message() } else {
                    invalid_default_format_message(defaults.format->Some_0@) })
            },
            ProbeCommand::Sync(c) => {
                &&& r is Ok <==> !output_fails(c.output, defaults.format)
                &&& r matches Ok(a) ==> a == sync_args(c, *defaults, *timing)
                &&& r matches Err(m) ==> m@ == invalid_default_format_message(defaults.format->Some_0@)
            },
            ProbeCommand::Diag(c) => r matches Ok(a) && a == diag_args(c, *defaults, *timing),
        },
{
    match cmd {
        ProbeCommand::Ntp(c) => build_ntp_args(c, defaults, timing),
        ProbeCommand::Compare(c) => {
            if c.targets.len() < 2 {
                return Err(String::from_str("Provide at least two targets to compare"));
            }
            build_compare_args(c, defaults, timing)
        },
        ProbeCommand::Sync(c) => build_sync_args(c, defaults, timing),
        ProbeCommand::Diag(c) => Ok(build_diag_args(c, defaults, timing)),
    }
}

pub open spec fn no_target_message() -> Seq<char> {
    "Provide a target (e.g. rkik pool.ntp.org)"@
}

/// The servers a run queries: the compared ones, else the single target.
pub fn run_targets<S>(args: &LegacyArgs<S>) -> (r: Result<Vec<String>, String>)
    ensures
        r is Ok <==> (args.compare is Some || args.target is Some),
        r matches Ok(v) ==> texts(v@) == match args.compare {
            Some(list) => texts(list@),
            None => seq![args.target->Some_0@],
        },
        r matches Err(m) ==> m@ == no_target_message(),
{
    match &args.compare {
        Some(list) => {
            let mut v: Vec<String> = Vec::new();
            let mut i: usize = 0;
            while i < list.len()
                invariant
                    i <= list@.len(),
                    v@.len() == i,
                    forall|j: int| 0 <= j < i ==> (#[trigger] v@[j])@ == list@[j]@,
                decreases list@.len() - i,
            {
                v.push(list[i].clone());
                i = i + 1;
            }
            assert(texts(v@) =~= texts(list@));
            Ok(v)
        },
        None => match &args.target {
            Some(t) => {
                let mut v: Vec<String> = Vec::new();
                v.push(t.clone());
                assert(texts(v@) =~= seq![t@]);
                Ok(v)
            },
            None => Err(String::from_str("Provide a target (e.g. rkik pool.ntp.org)")),
        },
    }
}

/// Whether another round of probes follows `rounds_done` finished ones.
pub fn keep_probing<S>(args: &LegacyArgs<S>, rounds_done: u32) -> (b: bool)
    ensures
        b == (args.infinite || rounds_done < args.count),
{
    args.infinite || rounds_done < args.count
}

/// Why plugin mode cannot run with these settings, if it cannot: plugin
/// mode prints one monitoring line for one probe of one server, so it does
/// not combine with compare, repeated or endless probing, another output
/// format, or clock synchronization.
pub open spec fn plugin_conflict<S>(a: LegacyArgs<S>) -> Option<Seq<char>> {
    if !a.plugin {
        None
    } else if a.compare is Some {
        Some("--plugin cannot be combined with --compare"@)
    } else if a.infinite {
        Some("--plugin cannot be combined with --infinite"@)
    } else if a.count > 1 {
        Some("--plugin cannot be combined with --count greater than 1"@)
    } else if a.format != OutputFormat::Text {
        Some("--plugin cannot be combined with another output format"@)
    } else if a.sync {
        Some("--plugin cannot be combined with --sync"@)
    } else {
        None
    }
}

/// Rejects settings that plugin mode cannot honour.
pub fn check_plugin_flags<S>(args: &LegacyArgs<S>) -> (r: Result<(), String>)
    ensures
        r is Ok <==> plugin_conflict(*args) is None,
        r matches Err(m) ==> m@ == plugin_conflict(*args)->Some_0,
        !args.plugin ==> r is Ok,
        args.plugin && (args.compare is Some || args.infinite || args.count > 1
            || args.format != OutputFormat::Text || args.sync) ==> r is Err,
        args.plugin && args.compare is None && !args.infinite && args.count <= 1
            && args.format == OutputFormat::Text && !args.sync ==> r is Ok,
{
    if !args.plugin {
        Ok(())
    } else if args.compare.is_some() {
        Err(String::from_str("--plugin cannot be combined with --compare"))
    } else if args.infinite {
        Err(String::from_str("--plugin cannot be combined with --infinite"))
    } else if args.count > 1 {
        Err(String::from_str("--plugin cannot be combined with --count greater than 1"))
    } else if args.format != OutputFormat::Text {
        Err(String::from_str("--plugin cannot be combined with another output format"))
    } else if args.sync {
        Err(String::from_str("--plugin cannot be combined with --sync"))
    } else {
        Ok(())
    }
}

/// The modern parser answers its own flags and its subcommands: when the
/// first argument is `-h`, `--help`, `-V`, `--version` or one of `ntp`,
/// `compare`, `sync`, `diag`, `config`, `preset`, the command line goes to
/// the modern parser; `help` first asks for help on the rest.
pub proof fn lemma_modern_routes(args: Seq<String>, m: Mode)
    requires
        routed(args, m),
        args.len() > 0,
    ensures
        args[0]@ == "-h"@ || args[0]@ == "--help"@ || args[0]@ == "-V"@ || args[0]@ == "--version"@
            ==> m is Modern,
        args[0]@ == "ntp"@ || args[0]@ == "compare"@ || args[0]@ == "sync"@ || args[0]@ == "diag"@
            || args[0]@ == "config"@ || args[0]@ == "preset"@ ==> m is Modern,
        args[0]@ == "help"@ ==> m is Help,
{
    reveal_strlit("help");
    reveal_strlit("-h");
    reveal_strlit("--help");
    reveal_strlit("-V");
    reveal_strlit("--version");
    reveal_strlit("ntp");
    reveal_strlit("compare");
    reveal_strlit("sync");
    reveal_strlit("diag");
    reveal_strlit("config");
    reveal_strlit("preset");
    assert("sync"@[0] != "help"@[0]);
    assert("diag"@[0] != "help"@[0]);
}

/// With no arguments the modern parser prints its help; an argument that
/// is neither `help`, a subcommand nor a modern flag (a server name, or a
/// legacy flag such as `--nts`) goes to the legacy parser.
pub proof fn lemma_other_routes(args: Seq<String>, m: Mode)
    requires
        routed(args, m),
    ensures
        args.len() == 0 ==> m is Modern,
        args.len() > 0 && args[0]@ != "help"@ && args[0]@ != "-h"@ && args[0]@ != "--help"@
            && args[0]@ != "-V"@ && args[0]@ != "--version"@ && args[0]@ != "ntp"@
            && args[0]@ != "compare"@ && args[0]@ != "sync"@ && args[0]@ != "diag"@
            && args[0]@ != "config"@ && args[0]@ != "preset"@ ==> m is Legacy,
{
}

/// Probe options: `-6` forces IPv6 whatever is stored (a stored
/// `ipv6_only = true` forces it too); count defaults to one; a timeout on
/// the command line wins over the stored one, which wins over the built-in
/// one; the interval comes from the command line or the built-in one; the
/// other settings are untouched.
pub proof fn lemma_probe_settings<S>(
    before: LegacyArgs<S>,
    after: LegacyArgs<S>,
    opts: ProbeOptions<S>,
    defaults: Defaults<S>,
    timing: ProbeTiming<S>,
)
    requires
        after == with_probe(before, opts, defaults, timing),
    ensures
        opts.ipv6 ==> after.ipv6,
        defaults.ipv6_only == Some(true) ==> after.ipv6,
        defaults.ipv6_only != Some(true) ==> after.ipv6 == opts.ipv6,
        after.count == (match opts.count { Some(c) => c, None => 1u32 }),
        opts.timeout matches Some(t) ==> after.timeout == t,
        opts.timeout is None ==> (defaults.timeout matches Some(t) ==> after.timeout == t),
        opts.timeout is None && defaults.timeout is None ==> after.timeout == timing.timeout,
        after.interval == (match opts.interval { Some(i) => i, None => timing.interval }),
        after.infinite == opts.infinite,
        after.target == before.target && after.compare == before.compare,
        after.format == before.format && after.verbose == before.verbose,
        after.nts == before.nts && after.nts_port == before.nts_port,
        after.plugin == before.plugin && after.sync == before.sync && after.dry_run == before.dry_run,
{
}

/// Output options: `--json` gives JSON, else `--short` gives the simple
/// format, else `--format` is used, else the stored default, else text; the
/// verbose, pretty and colour flags are copied; nothing else changes.
pub proof fn lemma_output_settings<S>(
    before: LegacyArgs<S>,
    after: LegacyArgs<S>,
    opts: OutputOptions,
    defaults: Defaults<S>,
)
    requires
        after == with_output(before, opts, chosen_format(opts, stored_format(defaults.format))),
    ensures
        opts.json ==> after.format == OutputFormat::Json,
        !opts.json && opts.short ==> after.format == OutputFormat::Simple,
        !opts.json && !opts.short ==> (opts.format matches Some(f) ==> after.format == f),
        !opts.json && !opts.short && opts.format is None && defaults.format is None
            ==> after.format == OutputFormat::Text,
        after.verbose == opts.verbose && after.pretty == opts.pretty && after.no_color == opts.no_color,
        after.target == before.target && after.compare == before.compare && after.ipv6 == before.ipv6,
        after.count == before.count && after.nts == before.nts && after.plugin == before.plugin,
{
}

/// `rkik ntp`: the run probes the given target (not a comparison) with the
/// command's IPv6, NTS and plugin options, and never synchronizes.
pub proof fn lemma_ntp_settings<S>(cmd: NtpCommand<S>, defaults: Defaults<S>, timing: ProbeTiming<S>, a: LegacyArgs<S>)
    requires
        a == ntp_args(cmd, defaults, timing),
    ensures
        a.target == cmd.target,
        a.compare is None,
        cmd.common.ipv6 ==> a.ipv6,
        a.nts == cmd.nts.nts && a.nts_port == cmd.nts.nts_port,
        a.plugin == cmd.plugin.plugin && a.warning == cmd.plugin.warning && a.critical == cmd.plugin.critical,
        a.verbose == cmd.output.verbose,
        !a.sync && !a.dry_run,
{
}

/// `rkik compare`: the run compares exactly the given servers, over NTS
/// when the command asks for it (with its NTS-KE port), honours `-6`, and
/// is neither a plugin run nor a synchronization.
pub proof fn lemma_compare_settings<S>(cmd: CompareCommand<S>, defaults: Defaults<S>, timing: ProbeTiming<S>, a: LegacyArgs<S>)
    requires
        a == compare_args(cmd, defaults, timing),
    ensures
        a.compare == Some(cmd.targets),
        a.target is None,
        a.nts == cmd.nts.nts && a.nts_port == cmd.nts.nts_port,
        cmd.common.ipv6 ==> a.ipv6,
        a.verbose == cmd.output.verbose,
        !a.plugin && !a.sync && !a.dry_run,
{
}

/// `rkik sync`: the run synchronizes with the given target, as a dry run
/// when asked, over plain NTP, and honours `-6`.
pub proof fn lemma_sync_settings<S>(cmd: SyncCommand<S>, defaults: Defaults<S>, timing: ProbeTiming<S>, a: LegacyArgs<S>)
    requires
        a == sync_args(cmd, defaults, timing),
    ensures
        a.target == Some(cmd.target),
        a.compare is None,
        a.sync && a.dry_run == cmd.dry_run,
        cmd.common.ipv6 ==> a.ipv6,
        !a.nts && !a.plugin,
{
}

/// `rkik diag`: one verbose text probe of the given target, honouring `-6`
/// and the timeout precedence, with no plugin, colour or pretty output.
pub proof fn lemma_diag_settings<S>(cmd: DiagCommand<S>, defaults: Defaults<S>, timing: ProbeTiming<S>, a: LegacyArgs<S>)
    requires
        a == diag_args(cmd, defaults, timing),
    ensures
        a.target == Some(cmd.target),
        a.compare is None,
        a.verbose && a.count == 1 && !a.infinite,
        a.format == OutputFormat::Text && !a.pretty && !a.no_color && !a.plugin,
        cmd.common.ipv6 ==> a.ipv6,
        defaults.ipv6_only == Some(true) ==> a.ipv6,
        cmd.common.timeout matches Some(t) ==> a.timeout == t,
        cmd.common.timeout is None ==> (defaults.timeout matches Some(t) ==> a.timeout == t),
        cmd.common.timeout is None && defaults.timeout is None ==> a.timeout == timing.timeout,
{
}

} // verus!
