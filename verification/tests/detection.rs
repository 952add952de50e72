use winforge::command::CommandOutput;
use winforge::detect::{applied_from_output, applied_tweaks, ids_from_reading, installed_apps, installed_from_output, DetectionReading};

fn ok(stdout: &[u8]) -> Result<CommandOutput, String> {
    Ok(CommandOutput { success: false, code: Some(1), stdout: stdout.to_vec(), stderr: vec![] })
}

#[test]
fn applied_list() {
    assert_eq!(applied_from_output("[\"Opt.DarkMode\",\"Opt.GodMode\"]\r\n"), vec!["Opt.DarkMode", "Opt.GodMode"]);
    assert_eq!(applied_from_output("  []  "), Vec::<String>::new());
}

#[test]
fn applied_single_string() {
    assert_eq!(applied_from_output("\"Opt.FlushDNS\"\n"), vec!["Opt.FlushDNS"]);
}

#[test]
fn applied_json_escapes_are_decoded() {
    assert_eq!(applied_from_output("[\"Opt.\\u0044arkMode\"]"), vec!["Opt.DarkMode"]);
    assert_eq!(applied_from_output("\"Opt.\\u0047odMode\""), vec!["Opt.GodMode"]);
}

#[test]
fn applied_nothing_for_other_output() {
    assert!(applied_from_output("").is_empty());
    assert!(applied_from_output("   \n").is_empty());
    assert!(applied_from_output("Opt.DarkMode").is_empty());
    assert!(applied_from_output("[\"unterminated").is_empty());
    assert!(applied_from_output("[1, 2]").is_empty());
    assert!(applied_from_output("\"bad").is_empty());
}

#[test]
fn applied_from_runs() {
    assert_eq!(applied_tweaks(&ok(b"[\"Opt.Telemetry\"]")), vec!["Opt.Telemetry"]);
    assert!(applied_tweaks(&Err("no powershell".to_string())).is_empty());
}

#[test]
fn readings() {
    assert_eq!(ids_from_reading(DetectionReading::Single(Some("x".to_string()))), vec!["x"]);
    assert!(ids_from_reading(DetectionReading::Single(None)).is_empty());
    assert!(ids_from_reading(DetectionReading::List(None)).is_empty());
    assert_eq!(ids_from_reading(DetectionReading::List(Some(vec!["a".to_string(), "b".to_string()]))), vec!["a", "b"]);
    assert!(ids_from_reading(DetectionReading::Nothing).is_empty());
}

#[test]
fn installed_words_are_distinct() {
    let listing = "Name  Id  Version\n----\nGit  Git.Git  2.45\nGit  Git.Git  2.45\n";
    assert_eq!(installed_from_output(listing), vec!["Name", "Id", "Version", "----", "Git", "Git.Git", "2.45"]);
    assert!(installed_from_output("").is_empty());
}

#[test]
fn installed_from_runs() {
    let names = installed_apps(&ok(b"Mozilla.Firefox 125 Mozilla.Firefox\xff"));
    assert_eq!(names, vec!["Mozilla.Firefox", "125", "Mozilla.Firefox\u{FFFD}"]);
    assert!(installed_apps(&Err("x".to_string())).is_empty());
}
