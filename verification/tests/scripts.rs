use winforge::command::CommandOutput;
use winforge::progress::Status;
use winforge::runner::{no_script, script_finished, script_started, ScriptPurpose, NOT_REVERSIBLE};

fn ran(success: bool, stdout: &str, stderr: &str) -> Result<CommandOutput, String> {
    Ok(CommandOutput {
        success,
        code: Some(if success { 0 } else { 1 }),
        stdout: stdout.as_bytes().to_vec(),
        stderr: stderr.as_bytes().to_vec(),
    })
}

#[test]
fn start_messages() {
    let p = script_started("Opt.DarkMode", "Dark Mode", ScriptPurpose::Apply);
    assert_eq!(p.app_id, "Opt.DarkMode");
    assert_eq!(p.app_name, "Dark Mode");
    assert_eq!(p.status, Status::Installing);
    assert_eq!(p.message, "Optimizing Dark Mode...");
    let p = script_started("Opt.DarkMode", "Dark Mode", ScriptPurpose::Revert);
    assert_eq!(p.message, "Reverting Dark Mode...");
}

#[test]
fn missing_scripts() {
    let p = no_script("Opt.X", "X", ScriptPurpose::Apply);
    assert_eq!((p.status, p.message.as_str()), (Status::Error, "Unknown optimization task"));
    let p = no_script("Opt.CleanTemp", "Clean", ScriptPurpose::Revert);
    assert_eq!((p.status, p.message.as_str()), (Status::Error, "This tweak cannot be reverted."));
    assert_eq!(NOT_REVERSIBLE, "Not reversible");
}

#[test]
fn success_reports_the_script_output() {
    let p = script_finished("Opt.DarkMode", "Dark Mode", ScriptPurpose::Apply,
        &ran(true, "\r\n  Dark Mode enabled system-wide.\r\n", ""));
    assert_eq!(p.status, Status::Done);
    assert_eq!(p.message, "Dark Mode enabled system-wide.");
}

#[test]
fn silent_success_uses_stock_sentence() {
    let p = script_finished("Opt.A", "Tweak A", ScriptPurpose::Apply, &ran(true, " \n ", "ignored"));
    assert_eq!((p.status, p.message.as_str()), (Status::Done, "Tweak A completed successfully"));
    let p = script_finished("Opt.A", "Tweak A", ScriptPurpose::Revert, &ran(true, "", ""));
    assert_eq!((p.status, p.message.as_str()), (Status::Done, "Tweak A reverted successfully"));
}

#[test]
fn failure_reports_the_error_output() {
    let p = script_finished("Opt.A", "Tweak A", ScriptPurpose::Apply, &ran(false, "out", "  Access denied\n"));
    assert_eq!((p.status, p.message.as_str()), (Status::Error, "Error: Access denied"));
    let p = script_finished("Opt.A", "Tweak A", ScriptPurpose::Apply, &ran(false, "out", ""));
    assert_eq!((p.status, p.message.as_str()), (Status::Error, "Failed to apply Tweak A"));
    let p = script_finished("Opt.A", "Tweak A", ScriptPurpose::Revert, &ran(false, "", "\t"));
    assert_eq!((p.status, p.message.as_str()), (Status::Error, "Failed to revert Tweak A"));
}

#[test]
fn start_failure_reports_the_reason() {
    let run: Result<CommandOutput, String> = Err("program not found".to_string());
    let p = script_finished("Opt.A", "Tweak A", ScriptPurpose::Apply, &run);
    assert_eq!((p.status, p.message.as_str()), (Status::Error, "Error running PowerShell: program not found"));
}

#[test]
fn invalid_utf8_output_is_decoded_lossily() {
    let run = Ok(CommandOutput { success: true, code: Some(0), stdout: vec![b'o', b'k', 0xff], stderr: vec![] });
    let p = script_finished("Opt.A", "A", ScriptPurpose::Apply, &run);
    assert_eq!(p.message, "ok\u{FFFD}");
}
