use rkik::cli::OutputFormat;
use rkik::config::{
    apply_config_value, handle_config, handle_preset, ConfigCommand, ConfigKey, ConfigOutcome,
    ConfigStore, Defaults, PresetCommand, PresetEntry, PresetOutcome, PresetRecord,
};

fn strings(v: &[&str]) -> Vec<String> {
    v.iter().map(|s| s.to_string()).collect()
}

fn printed(r: Result<PresetOutcome, String>) -> Vec<String> {
    match r {
        Ok(PresetOutcome::Print(lines)) => lines,
        other => panic!("expected lines, got {:?}", other),
    }
}

#[test]
fn preset_read_after_write() {
    let mut c: ConfigStore<f64> = ConfigStore::empty();
    c.add_preset("cf".to_string(), strings(&["--nts", "time.cloudflare.com"]));
    c.add_preset("g".to_string(), strings(&["time.google.com"]));
    assert_eq!(c.preset("cf").unwrap().args, strings(&["--nts", "time.cloudflare.com"]));
    c.add_preset("cf".to_string(), strings(&["-v"]));
    assert_eq!(c.preset("cf").unwrap().args, strings(&["-v"]));
    assert_eq!(c.presets().len(), 2);
    assert_eq!(c.presets()[0].name, "cf");
    assert!(c.remove_preset("cf"));
    assert!(c.preset("cf").is_none());
    assert!(!c.remove_preset("cf"));
    assert_eq!(c.preset("g").unwrap().args, strings(&["time.google.com"]));
}

#[test]
fn duplicate_names_are_refused() {
    let e = |n: &str| PresetEntry { name: n.to_string(), record: PresetRecord { args: strings(&["x"]) } };
    let d = || Defaults::<f64> { timeout: None, format: None, ipv6_only: None };
    assert!(ConfigStore::from_parts(d(), vec![e("a"), e("b")]).is_some());
    assert!(ConfigStore::from_parts(d(), vec![e("a"), e("b"), e("a")]).is_none());
}

#[test]
fn config_values() {
    let mut c: ConfigStore<f64> = ConfigStore::empty();
    apply_config_value(&mut c, ConfigKey::Timeout, Some("2.5".to_string()), Some(2.5)).unwrap();
    assert_eq!(c.defaults().timeout, Some(2.5));
    assert_eq!(
        apply_config_value(&mut c, ConfigKey::Timeout, Some("soon".to_string()), None),
        Err("Invalid timeout: soon".to_string())
    );
    assert_eq!(c.defaults().timeout, Some(2.5));
    apply_config_value(&mut c, ConfigKey::Format, Some("json-short".to_string()), None).unwrap();
    assert_eq!(c.defaults().format.as_deref(), Some("json-short"));
    assert_eq!(
        apply_config_value(&mut c, ConfigKey::Format, Some("xml".to_string()), None),
        Err("Unknown format. Use text, json, json-short, or simple.".to_string())
    );
    apply_config_value(&mut c, ConfigKey::Ipv6Only, Some("true".to_string()), None).unwrap();
    assert_eq!(c.defaults().ipv6_only, Some(true));
    assert_eq!(
        apply_config_value(&mut c, ConfigKey::Ipv6Only, Some("yes".to_string()), None),
        Err("Invalid bool: yes".to_string())
    );
    apply_config_value(&mut c, ConfigKey::Ipv6Only, None, None).unwrap();
    assert_eq!(c.defaults().ipv6_only, None);
    apply_config_value(&mut c, ConfigKey::Timeout, None, None).unwrap();
    assert_eq!(c.defaults().timeout, None);
}

#[test]
fn stored_format_reads_back() {
    let mut c: ConfigStore<f64> = ConfigStore::empty();
    apply_config_value(&mut c, ConfigKey::Format, Some("csv".to_string()), None).unwrap();
    assert_eq!(rkik::cli::parse_default_format(c.defaults()), Ok(Some(OutputFormat::Csv)));
}

#[test]
fn config_list_and_get() {
    let mut c: ConfigStore<f64> = ConfigStore::empty();
    match handle_config(ConfigCommand::List, &mut c, "<unset>", None) {
        Ok(ConfigOutcome::Print(lines)) => assert_eq!(
            lines,
            strings(&["timeout = <unset>", "format = <unset>", "ipv6_only = <unset>"])
        ),
        other => panic!("unexpected {:?}", other),
    }
    let r = handle_config(ConfigCommand::SetValue { key: ConfigKey::Ipv6Only, value: "false".to_string() }, &mut c, "", None);
    assert!(matches!(r, Ok(ConfigOutcome::Save)));
    match handle_config(ConfigCommand::Get { key: ConfigKey::Ipv6Only }, &mut c, "", None) {
        Ok(ConfigOutcome::Print(lines)) => assert_eq!(lines, strings(&["false"])),
        other => panic!("unexpected {:?}", other),
    }
    match handle_config(ConfigCommand::Get { key: ConfigKey::Timeout }, &mut c, "5.000", None) {
        Ok(ConfigOutcome::Print(lines)) => assert_eq!(lines, strings(&["5.000"])),
        other => panic!("unexpected {:?}", other),
    }
    assert!(matches!(handle_config(ConfigCommand::Path, &mut c, "", None), Ok(ConfigOutcome::ShowPath)));
    let r = handle_config(ConfigCommand::Clear { key: ConfigKey::Ipv6Only }, &mut c, "", None);
    assert!(matches!(r, Ok(ConfigOutcome::Save)));
    assert_eq!(c.defaults().ipv6_only, None);
}

#[test]
fn preset_commands() {
    let mut c: ConfigStore<f64> = ConfigStore::empty();
    assert_eq!(printed(handle_preset(PresetCommand::List, &mut c)), strings(&["(no presets)"]));
    assert_eq!(
        handle_preset(PresetCommand::Add { name: "x".to_string(), args: vec![] }, &mut c).unwrap_err(),
        "Provide arguments after --"
    );
    match handle_preset(PresetCommand::Add { name: "cf".to_string(), args: strings(&["--nts", "time.cloudflare.com"]) }, &mut c) {
        Ok(PresetOutcome::SaveThenPrint(m)) => assert_eq!(m, "Preset 'cf' stored"),
        other => panic!("unexpected {:?}", other),
    }
    assert_eq!(printed(handle_preset(PresetCommand::List, &mut c)), strings(&["cf: --nts time.cloudflare.com"]));
    assert_eq!(
        printed(handle_preset(PresetCommand::Show { name: "cf".to_string() }, &mut c)),
        strings(&["--nts time.cloudflare.com"])
    );
    match handle_preset(PresetCommand::Run { name: "cf".to_string() }, &mut c) {
        Ok(PresetOutcome::Run(args)) => assert_eq!(args, strings(&["--nts", "time.cloudflare.com"])),
        other => panic!("unexpected {:?}", other),
    }
    assert_eq!(
        handle_preset(PresetCommand::Show { name: "nope".to_string() }, &mut c).unwrap_err(),
        "Preset 'nope' not found"
    );
    assert_eq!(
        handle_preset(PresetCommand::Run { name: "nope".to_string() }, &mut c).unwrap_err(),
        "Preset 'nope' not found"
    );
    match handle_preset(PresetCommand::Remove { name: "cf".to_string() }, &mut c) {
        Ok(PresetOutcome::SaveThenPrint(m)) => assert_eq!(m, "Removed preset 'cf'"),
        other => panic!("unexpected {:?}", other),
    }
    assert_eq!(
        handle_preset(PresetCommand::Remove { name: "cf".to_string() }, &mut c).unwrap_err(),
        "Preset 'cf' not found"
    );
}

#[test]
fn empty_preset_does_not_run() {
    let d = Defaults::<f64> { timeout: None, format: None, ipv6_only: None };
    let entry = PresetEntry { name: "e".to_string(), record: PresetRecord { args: vec![] } };
    let mut c = ConfigStore::from_parts(d, vec![entry]).unwrap();
    assert_eq!(
        handle_preset(PresetCommand::Run { name: "e".to_string() }, &mut c).unwrap_err(),
        "Preset is empty"
    );
    assert_eq!(printed(handle_preset(PresetCommand::Show { name: "e".to_string() }, &mut c)), strings(&[""]));
}

#[test]
fn config_set_reports_why_it_failed() {
    let mut c: ConfigStore<f64> = ConfigStore::empty();
    let r = handle_config(ConfigCommand::SetValue { key: ConfigKey::Timeout, value: "abc".to_string() }, &mut c, "", None);
    assert_eq!(r.unwrap_err(), "Invalid timeout: abc");
    assert_eq!(c.defaults().timeout, None);
}

#[test]
fn removing_a_missing_preset_changes_nothing() {
    let mut c: ConfigStore<f64> = ConfigStore::empty();
    c.add_preset("a".to_string(), strings(&["x"]));
    assert!(handle_preset(PresetCommand::Remove { name: "b".to_string() }, &mut c).is_err());
    assert_eq!(c.presets().len(), 1);
    assert_eq!(c.preset("a").unwrap().args, strings(&["x"]));
}
