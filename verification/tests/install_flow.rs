use winforge::command::CommandOutput;
use winforge::install::{
    after_check, after_install, after_pip, checking, failure_detail_of, request_kind,
    CheckDecision, InstallDecision, RequestKind, PIP_PACKAGE,
};
use winforge::progress::Status;

fn out(success: bool, code: Option<i32>, stdout: &str, stderr: &str) -> CommandOutput {
    CommandOutput { success, code, stdout: stdout.as_bytes().to_vec(), stderr: stderr.as_bytes().to_vec() }
}

#[test]
fn requests_are_routed_by_prefix() {
    assert_eq!(request_kind("Opt.DarkMode"), RequestKind::Optimization);
    assert_eq!(request_kind("Opt.Whatever"), RequestKind::Optimization);
    assert_eq!(request_kind("Git.Git"), RequestKind::Package);
    assert_eq!(request_kind("opt.x"), RequestKind::Package);
    assert_eq!(request_kind("Opt"), RequestKind::Package);
}

#[test]
fn checking_message() {
    let p = checking("Git.Git", "Git");
    assert_eq!((p.status, p.message.as_str()), (Status::Installing, "Checking status of Git..."));
}

#[test]
fn installed_packages_are_skipped() {
    match after_check("Git.Git", "Git", &Ok(out(true, Some(0), "", ""))) {
        CheckDecision::Skip(p) => {
            assert_eq!((p.status, p.message.as_str()), (Status::Skipped, "Git is already installed"))
        }
        CheckDecision::Install(_) => panic!("should skip"),
    }
}

#[test]
fn missing_packages_are_installed() {
    for check in [Ok(out(false, Some(-1978335212), "No installed package found", "")), Err("no winget".to_string())] {
        match after_check("Git.Git", "Git", &check) {
            CheckDecision::Install(p) => {
                assert_eq!((p.status, p.message.as_str()), (Status::Installing, "Installing Git..."))
            }
            CheckDecision::Skip(_) => panic!("should install"),
        }
    }
}

#[test]
fn successful_installation() {
    match after_install("Git.Git", "Git", &Ok(out(true, Some(0), "", ""))) {
        InstallDecision::Report(p) => {
            assert_eq!(p.app_id, "Git.Git");
            assert_eq!((p.status, p.message.as_str()), (Status::Done, "Git installed successfully"));
        }
        InstallDecision::UpgradePip => panic!("no pip for git"),
    }
}

#[test]
fn python_installation_upgrades_pip() {
    assert_eq!(PIP_PACKAGE, "Python.Python.3.12");
    assert!(matches!(after_install(PIP_PACKAGE, "Python 3.12", &Ok(out(true, Some(0), "", ""))),
        InstallDecision::UpgradePip));
}

#[test]
fn failed_installation_with_code_and_error_line() {
    let o = out(false, Some(-1978335189), "Found Git [Git.Git]\nInstaller failed: 0x8a15000b  \n", "");
    assert_eq!(failure_detail_of(&o), "Exit code: -1978335189, details: Installer failed: 0x8a15000b");
    match after_install("Git.Git", "Git", &Ok(o)) {
        InstallDecision::Report(p) => {
            assert_eq!(p.status, Status::Error);
            assert_eq!(p.message, "Failed to install Git: Exit code: -1978335189, details: Installer failed: 0x8a15000b");
        }
        _ => panic!(),
    }
}

#[test]
fn failure_details_without_code_or_line() {
    assert_eq!(failure_detail_of(&out(false, None, "nothing useful", "")), "");
    assert_eq!(failure_detail_of(&out(false, Some(3), "nothing useful", "")), "Exit code: 3");
    assert_eq!(failure_detail_of(&out(false, None, "x", "  Error: disk full ")), "Error: disk full");
    match after_install("A.B", "AB", &Ok(out(false, None, "", ""))) {
        InstallDecision::Report(p) => assert_eq!(p.message, "Failed to install AB"),
        _ => panic!(),
    }
}

#[test]
fn winget_that_cannot_start() {
    match after_install("A.B", "AB", &Err("not found".to_string())) {
        InstallDecision::Report(p) => {
            assert_eq!((p.status, p.message.as_str()), (Status::Error, "Error running winget: not found"))
        }
        _ => panic!(),
    }
}

#[test]
fn pip_notes() {
    let p = after_pip(PIP_PACKAGE, "Python", &Ok(out(true, Some(0), "", "")));
    assert_eq!((p.status, p.message.as_str()), (Status::Done, "Python installed successfully and upgraded pip to the latest version."));
    let p = after_pip(PIP_PACKAGE, "Python", &Ok(out(false, Some(1), "", " no network \n")));
    assert_eq!(p.message, "Python installed successfully (Note: Pip upgrade failed: no network)");
    let p = after_pip(PIP_PACKAGE, "Python", &Err("cmd missing".to_string()));
    assert_eq!(p.status, Status::Done);
    assert_eq!(p.message, "Python installed successfully (Note: Could not run pip upgrade: cmd missing)");
}
