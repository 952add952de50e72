use winforge::detect::DETECTION_SCRIPT;
use winforge::install::{request_kind, RequestKind};
use winforge::runner::{apply_script, revert_script};
use winforge::tweaks::{all_tweaks, Tweak};

#[test]
fn every_tweak_is_found_by_its_id() {
    let all = all_tweaks();
    assert_eq!(all.len(), 19);
    for t in all {
        assert_eq!(Tweak::from_id(t.id()), Some(t));
        assert!(t.id().starts_with("Opt."));
    }
}

#[test]
fn unknown_ids_name_no_tweak() {
    assert_eq!(Tweak::from_id("Opt.Unknown"), None);
    assert_eq!(Tweak::from_id("opt.darkmode"), None);
    assert_eq!(Tweak::from_id(""), None);
}

#[test]
fn three_tweaks_cannot_be_reverted() {
    let mut missing = Vec::new();
    for t in all_tweaks() {
        if t.revert_script().is_none() {
            missing.push(t.id());
        }
    }
    assert_eq!(missing, vec!["Opt.CleanTemp", "Opt.TrimSSD", "Opt.ResetNetwork"]);
}

#[test]
fn scripts_by_id() {
    let dark = apply_script("Opt.DarkMode").unwrap();
    assert!(dark.contains("AppsUseLightTheme\" -Value 0"));
    assert!(dark.contains("Dark Mode enabled system-wide."));
    let light = revert_script("Opt.DarkMode").unwrap();
    assert!(light.contains("Light Mode re-enabled."));
    assert!(apply_script("Opt.Nope").is_none());
    assert!(revert_script("Opt.CleanTemp").is_none());
    assert!(apply_script("Opt.CleanTemp").unwrap().contains("Clear-DnsClientCache"));
    assert!(revert_script("Opt.HighPerf").unwrap().contains("381b4222-f694-41f0-9685-ff5bb260df2e"));
}

#[test]
fn every_tweak_routes_to_the_runner_and_has_its_scripts() {
    for t in all_tweaks() {
        assert_eq!(request_kind(t.id()), RequestKind::Optimization);
        assert_eq!(apply_script(t.id()), Some(t.apply_script()));
        assert_eq!(revert_script(t.id()), t.revert_script());
    }
}

#[test]
fn detection_reports_exactly_the_revertible_tweaks() {
    let marker = "$applied += \"";
    let mut detected = Vec::new();
    let mut rest = DETECTION_SCRIPT;
    while let Some(i) = rest.find(marker) {
        rest = &rest[i + marker.len()..];
        let end = rest.find('"').unwrap();
        detected.push(&rest[..end]);
        rest = &rest[end..];
    }
    let revertible: Vec<&str> = all_tweaks()
        .into_iter()
        .filter(|t| t.revert_script().is_some())
        .map(|t| t.id())
        .collect();
    assert_eq!(detected, revertible);
}
