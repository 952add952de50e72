use winforge::command::{admin_probe, is_admin, pip_upgrade, powershell, winget_check, winget_install, winget_list_all, CommandOutput};
use winforge::progress::Status;
use winforge::system::{parse_failure, system_info_json, SYSTEM_INFO_SCRIPT};
use winforge::window::{toggle_maximize, WindowChange};

fn run(success: bool, stdout: &str, stderr: &str) -> Result<CommandOutput, String> {
    Ok(CommandOutput { success, code: None, stdout: stdout.as_bytes().to_vec(), stderr: stderr.as_bytes().to_vec() })
}

#[test]
fn summary_text() {
    assert_eq!(system_info_json(&run(true, "{\"cpu\":\"x\"}", "")), Ok("{\"cpu\":\"x\"}".to_string()));
    assert_eq!(system_info_json(&run(false, "out", "boom")), Err("boom".to_string()));
    assert_eq!(system_info_json(&Err("spawn".to_string())), Err("spawn".to_string()));
    assert!(SYSTEM_INFO_SCRIPT.contains("ConvertTo-Json"));
}

#[test]
fn parse_failure_message() {
    assert_eq!(parse_failure("EOF while parsing", "{"), "Failed to parse JSON: EOF while parsing, output: {");
}

#[test]
fn maximize_toggle() {
    assert_eq!(toggle_maximize(Some(true)), WindowChange::Unmaximize);
    assert_eq!(toggle_maximize(Some(false)), WindowChange::Maximize);
    assert_eq!(toggle_maximize(None), WindowChange::Maximize);
}

#[test]
fn admin_rights() {
    assert!(is_admin(&run(true, "", "")));
    assert!(!is_admin(&run(false, "", "System error 5")));
    assert!(!is_admin(&Err("no net".to_string())));
}

#[test]
fn invocations() {
    let i = powershell("Write-Output 1");
    assert_eq!(i.program, "powershell");
    assert_eq!(i.args, vec!["-NoProfile", "-NonInteractive", "-Command", "Write-Output 1"]);
    let i = winget_check("Git.Git");
    assert_eq!((i.program.as_str(), i.args.clone()), ("winget", vec!["list".to_string(), "--id".to_string(), "Git.Git".to_string()]));
    let i = winget_install("Git.Git");
    assert_eq!(i.args, vec!["install", "--id", "Git.Git", "--silent", "--accept-package-agreements", "--accept-source-agreements"]);
    assert_eq!(winget_list_all().args, vec!["list", "--accept-source-agreements"]);
    let i = pip_upgrade();
    assert_eq!((i.program.as_str(), i.args.clone()), ("cmd", vec!["/c".to_string(), "python -m pip install --upgrade pip".to_string()]));
    let i = admin_probe();
    assert_eq!((i.program.as_str(), i.args.clone()), ("net", vec!["session".to_string()]));
    assert_eq!(Status::Skipped.as_str(), "skipped");
    assert_eq!(Status::Installing.as_str(), "installing");
    assert_eq!(Status::Done.as_str(), "done");
    assert_eq!(Status::Error.as_str(), "error");
}
