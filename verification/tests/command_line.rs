use rkik::cli::{
    apply_output_options, apply_plugin_options, apply_probe_options, build_compare_args,
    build_diag_args, build_ntp_args, build_sync_args, detect_mode, is_new_keyword,
    parse_default_format, plan_probe, CompareCommand, DiagCommand, LegacyArgs, Mode, NtpCommand,
    NtsOptions, OutputFormat, OutputOptions, PluginOptions, ProbeCommand, ProbeOptions,
    ProbeTiming, SyncCommand,
};
use rkik::config::Defaults;

const TIMING: ProbeTiming<f64> = ProbeTiming { interval: 1.0, timeout: 5.0 };

fn strings(v: &[&str]) -> Vec<String> {
    v.iter().map(|s| s.to_string()).collect()
}

fn no_defaults() -> Defaults<f64> {
    Defaults { timeout: None, format: None, ipv6_only: None }
}

fn probe_opts() -> ProbeOptions<f64> {
    ProbeOptions { count: None, interval: None, timeout: None, infinite: false, ipv6: false }
}

fn output_opts() -> OutputOptions {
    OutputOptions { verbose: false, format: None, json: false, short: false, pretty: false, no_color: false }
}

fn nts_opts() -> NtsOptions {
    NtsOptions { nts: false, nts_port: 4460 }
}

#[test]
fn keywords() {
    for k in ["ntp", "compare", "sync", "diag", "config", "preset"] {
        assert!(is_new_keyword(k));
    }
    for k in ["NTP", "pool.ntp.org", "", "help", "ntpx"] {
        assert!(!is_new_keyword(k));
    }
}

#[test]
fn mode_detection() {
    assert!(matches!(detect_mode(&vec![]), Mode::Modern));
    assert!(matches!(detect_mode(&strings(&["compare", "a", "b"])), Mode::Modern));
    assert!(matches!(detect_mode(&strings(&["--version"])), Mode::Modern));
    assert!(matches!(detect_mode(&strings(&["-h"])), Mode::Modern));
    assert!(matches!(detect_mode(&strings(&["pool.ntp.org", "-v"])), Mode::Legacy));
    assert!(matches!(detect_mode(&strings(&["--nts", "ntp"])), Mode::Legacy));
    match detect_mode(&strings(&["help", "preset", "add"])) {
        Mode::Help(rest) => assert_eq!(rest, strings(&["preset", "add"])),
        _ => panic!("expected help mode"),
    }
    match detect_mode(&strings(&["help"])) {
        Mode::Help(rest) => assert!(rest.is_empty()),
        _ => panic!("expected help mode"),
    }
}

#[test]
fn format_names_round_trip() {
    for f in [OutputFormat::Text, OutputFormat::Json, OutputFormat::JsonShort, OutputFormat::Simple, OutputFormat::Csv] {
        assert_eq!(OutputFormat::from_name(f.as_str()), Some(f));
    }
    assert_eq!(OutputFormat::from_name("json-short"), Some(OutputFormat::JsonShort));
    assert_eq!(OutputFormat::from_name("JSON"), None);
    assert_eq!(OutputFormat::from_name("xml"), None);
}

#[test]
fn default_format_parsing() {
    assert_eq!(parse_default_format(&no_defaults()), Ok(None));
    let d = Defaults { timeout: None, format: Some("simple".to_string()), ipv6_only: None };
    assert_eq!(parse_default_format::<f64>(&d), Ok(Some(OutputFormat::Simple)));
    let d = Defaults::<f64> { timeout: None, format: Some("yaml".to_string()), ipv6_only: None };
    assert_eq!(
        parse_default_format(&d),
        Err("Invalid default format 'yaml' in rkik config. Use text, json, json-short, or simple.".to_string())
    );
}

#[test]
fn output_format_precedence() {
    let d = Defaults::<f64> { timeout: None, format: Some("csv".to_string()), ipv6_only: None };
    let mut a = LegacyArgs::new(&TIMING);
    apply_output_options(&mut a, &output_opts(), &d).unwrap();
    assert_eq!(a.format, OutputFormat::Csv);
    let mut o = output_opts();
    o.format = Some(OutputFormat::JsonShort);
    apply_output_options(&mut a, &o, &d).unwrap();
    assert_eq!(a.format, OutputFormat::JsonShort);
    o.short = true;
    apply_output_options(&mut a, &o, &d).unwrap();
    assert_eq!(a.format, OutputFormat::Simple);
    o.json = true;
    o.verbose = true;
    o.pretty = true;
    o.no_color = true;
    apply_output_options(&mut a, &o, &d).unwrap();
    assert_eq!(a.format, OutputFormat::Json);
    assert!(a.verbose && a.pretty && a.no_color);
    let mut b = LegacyArgs::new(&TIMING);
    apply_output_options(&mut b, &output_opts(), &no_defaults()).unwrap();
    assert_eq!(b.format, OutputFormat::Text);
}

#[test]
fn invalid_stored_format_fails_but_keeps_flags() {
    let d = Defaults::<f64> { timeout: None, format: Some("bogus".to_string()), ipv6_only: None };
    let mut a = LegacyArgs::new(&TIMING);
    a.format = OutputFormat::Csv;
    let mut o = output_opts();
    o.json = true;
    o.verbose = true;
    let r = apply_output_options(&mut a, &o, &d);
    assert!(r.is_err());
    assert!(a.verbose);
    assert_eq!(a.format, OutputFormat::Csv);
}

#[test]
fn probe_option_precedence() {
    let d = Defaults { timeout: Some(2.5), format: None, ipv6_only: Some(true) };
    let mut a = LegacyArgs::new(&TIMING);
    apply_probe_options(&mut a, &probe_opts(), &d, &TIMING);
    assert_eq!((a.count, a.interval, a.timeout, a.infinite, a.ipv6), (1, 1.0, 2.5, false, true));
    let opts = ProbeOptions { count: Some(10), interval: Some(0.5), timeout: Some(0.1), infinite: true, ipv6: false };
    apply_probe_options(&mut a, &opts, &no_defaults(), &TIMING);
    assert_eq!((a.count, a.interval, a.timeout, a.infinite, a.ipv6), (10, 0.5, 0.1, true, false));
    apply_probe_options(&mut a, &probe_opts(), &no_defaults(), &TIMING);
    assert_eq!(a.timeout, 5.0);
}

#[test]
fn plugin_options_are_copied() {
    let mut a = LegacyArgs::new(&TIMING);
    apply_plugin_options(&mut a, &PluginOptions { plugin: true, warning: Some(50.0), critical: Some(200.0) });
    assert!(a.plugin);
    assert_eq!(a.warning, Some(50.0));
    assert_eq!(a.critical, Some(200.0));
}

#[test]
fn ntp_needs_a_target() {
    let cmd = NtpCommand {
        common: probe_opts(),
        output: output_opts(),
        plugin: PluginOptions { plugin: false, warning: None, critical: None },
        nts: nts_opts(),
        target: None,
    };
    assert_eq!(
        build_ntp_args(cmd, &no_defaults(), &TIMING).unwrap_err(),
        "Provide a target (e.g. rkik ntp pool.ntp.org)"
    );
}

#[test]
fn ntp_args_are_built() {
    let cmd = NtpCommand {
        common: probe_opts(),
        output: output_opts(),
        plugin: PluginOptions { plugin: true, warning: Some(50.0), critical: Some(200.0) },
        nts: NtsOptions { nts: true, nts_port: 8443 },
        target: Some("time.cloudflare.com".to_string()),
    };
    let a = build_ntp_args(cmd, &no_defaults(), &TIMING).unwrap();
    assert_eq!(a.target.as_deref(), Some("time.cloudflare.com"));
    assert!(a.compare.is_none());
    assert!(a.plugin && a.nts && !a.sync);
    assert_eq!(a.nts_port, 8443);
    assert_eq!(a.warning, Some(50.0));
}

#[test]
fn compare_needs_two_targets() {
    let cmd = CompareCommand { common: probe_opts(), output: output_opts(), nts: nts_opts(), targets: strings(&["a"]) };
    assert_eq!(
        build_compare_args(cmd.clone(), &no_defaults(), &TIMING).unwrap_err(),
        "Comparison requires at least two targets"
    );
    assert_eq!(
        plan_probe(ProbeCommand::Compare(cmd), &no_defaults(), &TIMING).unwrap_err(),
        "Provide at least two targets to compare"
    );
    let cmd = CompareCommand { common: probe_opts(), output: output_opts(), nts: nts_opts(), targets: strings(&["a", "b"]) };
    let a = plan_probe(ProbeCommand::Compare(cmd), &no_defaults(), &TIMING).unwrap();
    assert_eq!(a.compare, Some(strings(&["a", "b"])));
    assert!(a.target.is_none());
}

#[test]
fn sync_and_diag_args() {
    let cmd = SyncCommand { common: probe_opts(), output: output_opts(), dry_run: true, target: "t".to_string() };
    let a = build_sync_args(cmd, &no_defaults(), &TIMING).unwrap();
    assert!(a.sync && a.dry_run);
    assert_eq!(a.target.as_deref(), Some("t"));
    let d = Defaults { timeout: Some(3.0), format: Some("json".to_string()), ipv6_only: Some(true) };
    let mut common = probe_opts();
    common.count = Some(9);
    let a = build_diag_args(DiagCommand { common, target: "d".to_string() }, &d, &TIMING);
    assert_eq!(a.count, 1);
    assert!(a.verbose && a.ipv6);
    assert_eq!(a.timeout, 3.0);
    assert_eq!(a.format, OutputFormat::Text);
}

#[test]
fn run_targets_and_rounds() {
    let mut a = LegacyArgs::new(&TIMING);
    assert_eq!(
        rkik::cli::run_targets(&a).unwrap_err(),
        "Provide a target (e.g. rkik pool.ntp.org)"
    );
    a.target = Some("t".to_string());
    assert_eq!(rkik::cli::run_targets(&a).unwrap(), strings(&["t"]));
    a.compare = Some(strings(&["a", "b"]));
    assert_eq!(rkik::cli::run_targets(&a).unwrap(), strings(&["a", "b"]));
    a.count = 3;
    assert!(rkik::cli::keep_probing(&a, 2));
    assert!(!rkik::cli::keep_probing(&a, 3));
    a.infinite = true;
    assert!(rkik::cli::keep_probing(&a, 1000));
}

#[test]
fn plugin_flag_conflicts() {
    let mut a = LegacyArgs::new(&TIMING);
    a.compare = Some(strings(&["a", "b"]));
    assert!(rkik::cli::check_plugin_flags(&a).is_ok());
    a.plugin = true;
    assert_eq!(rkik::cli::check_plugin_flags(&a).unwrap_err(), "--plugin cannot be combined with --compare");
    a.compare = None;
    a.infinite = true;
    assert_eq!(rkik::cli::check_plugin_flags(&a).unwrap_err(), "--plugin cannot be combined with --infinite");
    a.infinite = false;
    a.count = 2;
    assert_eq!(
        rkik::cli::check_plugin_flags(&a).unwrap_err(),
        "--plugin cannot be combined with --count greater than 1"
    );
    a.count = 1;
    a.format = OutputFormat::Json;
    assert_eq!(
        rkik::cli::check_plugin_flags(&a).unwrap_err(),
        "--plugin cannot be combined with another output format"
    );
    a.format = OutputFormat::Text;
    a.sync = true;
    assert_eq!(rkik::cli::check_plugin_flags(&a).unwrap_err(), "--plugin cannot be combined with --sync");
    a.sync = false;
    assert!(rkik::cli::check_plugin_flags(&a).is_ok());
}
