use winforge::batch::{advance, batch_advance, batch_start, begin, revert_begin, Request, Stage};
use winforge::command::CommandOutput;
use winforge::progress::Status;

fn req(id: &str, name: &str) -> Request {
    Request { id: id.to_string(), name: name.to_string() }
}

fn ok(success: bool, stdout: &str) -> Result<CommandOutput, String> {
    Ok(CommandOutput { success, code: Some(if success { 0 } else { 1 }), stdout: stdout.as_bytes().to_vec(), stderr: vec![] })
}

fn texts(reports: &[winforge::progress::InstallProgress]) -> Vec<(String, &'static str, String)> {
    reports.iter().map(|p| (p.app_id.clone(), p.status.as_str(), p.message.clone())).collect()
}

#[test]
fn empty_batch_is_complete_at_once() {
    let s = batch_start(&vec![]);
    assert!(s.complete);
    assert!(s.reports.is_empty());
    assert!(s.next.is_none());
}

#[test]
fn batch_reports_each_request_in_turn() {
    let reqs = vec![
        req("Opt.Unknown", "Mystery"),
        req("Opt.DarkMode", "Dark Mode"),
        req("Git.Git", "Git"),
        req("Python.Python.3.12", "Python"),
        req("7zip.7zip", "7-Zip"),
    ];
    let mut all = Vec::new();
    let mut s = batch_start(&reqs);
    let runs = vec![
        ok(true, "Dark Mode enabled system-wide.\r\n"),
        ok(false, ""),
        ok(true, ""),
        ok(false, ""),
        ok(true, ""),
        ok(true, ""),
        ok(true, ""),
    ];
    let mut used = 0;
    loop {
        all.extend(texts(&s.reports));
        if s.complete {
            break;
        }
        assert_ne!(s.stage, Stage::Finished);
        assert!(s.next.is_some());
        s = batch_advance(&reqs, s.index, s.stage, &runs[used]);
        used += 1;
    }
    assert_eq!(used, 7);
    let expected: Vec<(String, &str, String)> = vec![
        ("Opt.Unknown", "installing", "Optimizing Mystery..."),
        ("Opt.Unknown", "error", "Unknown optimization task"),
        ("Opt.DarkMode", "installing", "Optimizing Dark Mode..."),
        ("Opt.DarkMode", "done", "Dark Mode enabled system-wide."),
        ("Git.Git", "installing", "Checking status of Git..."),
        ("Git.Git", "installing", "Installing Git..."),
        ("Git.Git", "done", "Git installed successfully"),
        ("Python.Python.3.12", "installing", "Checking status of Python..."),
        ("Python.Python.3.12", "installing", "Installing Python..."),
        ("Python.Python.3.12", "done", "Python installed successfully and upgraded pip to the latest version."),
        ("7zip.7zip", "installing", "Checking status of 7-Zip..."),
        ("7zip.7zip", "skipped", "7-Zip is already installed"),
    ]
    .into_iter()
    .map(|(a, b, c)| (a.to_string(), b, c.to_string()))
    .collect();
    assert_eq!(all, expected);
}

#[test]
fn single_request_steps() {
    let s = begin("Git.Git", "Git");
    assert_eq!(s.stage, Stage::AwaitCheck);
    let inv = s.next.unwrap();
    assert_eq!((inv.program.as_str(), inv.args), ("winget", vec!["list".to_string(), "--id".to_string(), "Git.Git".to_string()]));
    let s = advance("Git.Git", "Git", Stage::AwaitCheck, &Err("missing".to_string()));
    assert_eq!(s.stage, Stage::AwaitInstall);
    assert_eq!(s.next.unwrap().args[0], "install");
    let s = advance("Python.Python.3.12", "Python", Stage::AwaitInstall, &ok(true, ""));
    assert_eq!(s.stage, Stage::AwaitPip);
    assert!(s.reports.is_empty());
    assert_eq!(s.next.unwrap().program, "cmd");
    let s = advance("Git.Git", "Git", Stage::Finished, &ok(true, ""));
    assert_eq!(s.stage, Stage::Finished);
    assert!(s.reports.is_empty() && s.next.is_none());
    let s = begin("Opt.GodMode", "God Mode");
    assert_eq!(s.stage, Stage::AwaitScript);
    assert_eq!(s.reports[0].status, Status::Installing);
    assert!(s.next.unwrap().args[3].contains("GodMode"));
}

#[test]
fn revert_requests() {
    let p = revert_begin("Opt.DarkMode", "Dark Mode");
    assert_eq!(texts(&p.reports), vec![("Opt.DarkMode".to_string(), "installing", "Reverting Dark Mode...".to_string())]);
    assert!(p.next.unwrap().args[3].contains("Light Mode re-enabled."));
    assert_eq!(p.result, Ok(()));
    let p = revert_begin("Opt.CleanTemp", "Clean Temp");
    assert_eq!(
        texts(&p.reports),
        vec![
            ("Opt.CleanTemp".to_string(), "installing", "Reverting Clean Temp...".to_string()),
            ("Opt.CleanTemp".to_string(), "error", "This tweak cannot be reverted.".to_string()),
        ]
    );
    assert!(p.next.is_none());
    assert_eq!(p.result, Err("Not reversible".to_string()));
}
