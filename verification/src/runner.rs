//! Applying and reverting tweaks: which script to run, and what to report
//! before and after running it.
use vstd::prelude::*;
use crate::command::{CommandOutput, stdout_text, stderr_text};
use crate::progress::{InstallProgress, Status, reports};
use crate::text::{trim, trimmed, concat2};
use crate::tweaks::{Tweak, tweak_id, tweak_named, apply_script_text, revert_script_text, lemma_tweak_named_id, lemma_revertible};
use crate::command::run_succeeded;
use crate::text::contains_seq;
use crate::tweak_content::{apply_commands, revert_commands};

verus! {

/// Whether a script applies a tweak or reverts it.
#[derive(Clone, Copy, Debug, PartialEq, Eq, Structural)]
pub enum ScriptPurpose {
    Apply,
    Revert,
}

/// The error that a revert request for a tweak without a revert script
/// returns.
pub const NOT_REVERSIBLE: &'static str = "Not reversible";

/// The script that applies the tweak named `id`.
pub open spec fn apply_script_for(id: Seq<char>) -> Option<Seq<char>> {
    match tweak_named(id) {
        Some(t) => Some(apply_script_text(t)),
        None => None,
    }
}

/// The script that reverts the tweak named `id`.
pub open spec fn revert_script_for(id: Seq<char>) -> Option<Seq<char>> {
    match tweak_named(id) {
        Some(t) => revert_script_text(t),
        None => None,
    }
}

/// Every tweak of the catalogue can be applied by its identifier, and can be
/// reverted by it unless it is one of the three that have no revert script.
pub proof fn lemma_scripts_by_id(t: Tweak)
    ensures
        apply_script_for(tweak_id(t)) == Some(apply_script_text(t)),
        revert_script_for(tweak_id(t)) == revert_script_text(t),
        revert_script_for(tweak_id(t)) is Some <==> !(t == Tweak::CleanTemp || t == Tweak::TrimSSD
            || t == Tweak::ResetNetwork),
{
    lemma_tweak_named_id(t);
    lemma_revertible(t);
}

/// The script that applies the tweak named `id`, if `id` names one.
pub fn apply_script(id: &str) -> (s: Option<&'static str>)
    ensures
        match s {
            Some(x) => apply_script_for(id@) == Some(x@),
            None => apply_script_for(id@) is None,
        },
        match tweak_named(id@) {
            Some(t) => s matches Some(x) && forall|j: int|
                0 <= j < apply_commands(t).len() ==> contains_seq(
                    x@,
                    #[trigger] apply_commands(t)[j],
                ),
            None => s is None,
        },
{
    match Tweak::from_id(id) {
        Some(t) => Some(t.apply_script()),
        None => None,
    }
}

/// The script that reverts the tweak named `id`, if `id` names a tweak that
/// can be reverted.
pub fn revert_script(id: &str) -> (s: Option<&'static str>)
    ensures
        match s {
            Some(x) => revert_script_for(id@) == Some(x@),
            None => revert_script_for(id@) is None,
        },
        match tweak_named(id@) {
            Some(t) => (s is Some <==> revert_commands(t).len() > 0) && (s matches Some(x)
                ==> forall|j: int|
                0 <= j < revert_commands(t).len() ==> contains_seq(
                    x@,
                    #[trigger] revert_commands(t)[j],
                )),
            None => s is None,
        },
{
    match Tweak::from_id(id) {
        Some(t) => t.revert_script(),
        None => None,
    }
}

/// The report before a script runs.
pub open spec fn script_start_message(purpose: ScriptPurpose, name: Seq<char>) -> Seq<char> {
    match purpose {
        ScriptPurpose::Apply => "Optimizing "@ + name + "..."@,
        ScriptPurpose::Revert => "Reverting "@ + name + "..."@,
    }
}

/// Announces that a script for the request `id` named `name` starts.
pub fn script_started(id: &str, name: &str, purpose: ScriptPurpose) -> (p: InstallProgress)
    ensures
        reports(p, id@, name@, Status::Installing, script_start_message(purpose, name@)),
{
    let mut m = match purpose {
        ScriptPurpose::Apply => "Optimizing ".to_owned(),
        ScriptPurpose::Revert => "Reverting ".to_owned(),
    };
    m.append(name);
    m.append("...");
    InstallProgress::new(id, name, Status::Installing, m)
}

/// The report when no script exists for the request.
pub open spec fn no_script_message(purpose: ScriptPurpose) -> Seq<char> {
    match purpose {
        ScriptPurpose::Apply => "Unknown optimization task"@,
        ScriptPurpose::Revert => "This tweak cannot be reverted."@,
    }
}

/// Reports that there is no script of the given purpose for the request.
pub fn no_script(id: &str, name: &str, purpose: ScriptPurpose) -> (p: InstallProgress)
    ensures
        reports(p, id@, name@, Status::Error, no_script_message(purpose)),
{
    let m = match purpose {
        ScriptPurpose::Apply => "Unknown optimization task".to_owned(),
        ScriptPurpose::Revert => "This tweak cannot be reverted.".to_owned(),
    };
    InstallProgress::new(id, name, Status::Error, m)
}

/// What a script that succeeded silently reports.
pub open spec fn quiet_success_message(purpose: ScriptPurpose, name: Seq<char>) -> Seq<char> {
    match purpose {
        ScriptPurpose::Apply => name + " completed successfully"@,
        ScriptPurpose::Revert => name + " reverted successfully"@,
    }
}

/// What a script that failed silently reports.
pub open spec fn quiet_failure_message(purpose: ScriptPurpose, name: Seq<char>) -> Seq<char> {
    match purpose {
        ScriptPurpose::Apply => "Failed to apply "@ + name,
        ScriptPurpose::Revert => "Failed to revert "@ + name,
    }
}

/// The status and message that report a finished script run: on success the
/// script's own output, trimmed, or a stock sentence when it printed nothing;
/// on failure its error output, trimmed and marked, or a stock sentence; and
/// the reason when PowerShell could not be started.
pub open spec fn script_report(
    purpose: ScriptPurpose,
    name: Seq<char>,
    run: Result<CommandOutput, String>,
) -> (Status, Seq<char>) {
    match run {
        Ok(o) => if o.success {
            let out = trim(stdout_text(o));
            (Status::Done, if out.len() == 0 {
                quiet_success_message(purpose, name)
            } else {
                out
            })
        } else {
            let err = trim(stderr_text(o));
            (Status::Error, if err.len() == 0 {
                quiet_failure_message(purpose, name)
            } else {
                "Error: "@ + err
            })
        },
        Err(e) => (Status::Error, "Error running PowerShell: "@ + e@),
    }
}

/// A finished script run is reported done exactly when the script ran and
/// succeeded, and as an error otherwise; it is never left "installing".
pub proof fn lemma_script_report_status(
    purpose: ScriptPurpose,
    name: Seq<char>,
    run: Result<CommandOutput, String>,
)
    ensures
        script_report(purpose, name, run).0 == Status::Done <==> run_succeeded(run),
        script_report(purpose, name, run).0 == Status::Error <==> !run_succeeded(run),
{
}

/// A script that succeeded reports what it printed, trimmed, when it
/// printed anything; one that failed reports its error output, trimmed and
/// marked, when there is any; one that could not start reports the reason.
pub proof fn lemma_script_report_messages(
    purpose: ScriptPurpose,
    name: Seq<char>,
    run: Result<CommandOutput, String>,
)
    ensures
        run matches Ok(o) ==> (o.success && trim(stdout_text(o)).len() > 0 ==> script_report(
            purpose,
            name,
            run,
        ).1 == trim(stdout_text(o))),
        run matches Ok(o) ==> (!o.success && trim(stderr_text(o)).len() > 0 ==> script_report(
            purpose,
            name,
            run,
        ).1 == "Error: "@ + trim(stderr_text(o))),
        run matches Err(e) ==> script_report(purpose, name, run).1 == "Error running PowerShell: "@
            + e@,
{
}

/// Reports how the script run `run` for the request `id` named `name` ended.
pub fn script_finished(
    id: &str,
    name: &str,
    purpose: ScriptPurpose,
    run: &Result<CommandOutput, String>,
) -> (p: InstallProgress)
    ensures
        reports(
            p,
            id@,
            name@,
            script_report(purpose, name@, *run).0,
            script_report(purpose, name@, *run).1,
        ),
{
    match run {
        Ok(o) => {
            if o.success {
                let out = trimmed(o.stdout_string().as_str());
                let m = if out.as_str().is_empty() {
                    match purpose {
                        ScriptPurpose::Apply => concat2(name, " completed successfully"),
                        ScriptPurpose::Revert => concat2(name, " reverted successfully"),
                    }
                } else {
                    out
                };
                InstallProgress::new(id, name, Status::Done, m)
            } else {
                let err = trimmed(o.stderr_string().as_str());
                let m = if err.as_str().is_empty() {
                    match purpose {
                        ScriptPurpose::Apply => concat2("Failed to apply ", name),
                        ScriptPurpose::Revert => concat2("Failed to revert ", name),
                    }
                } else {
                    concat2("Error: ", err.as_str())
                };
                InstallProgress::new(id, name, Status::Error, m)
            }
        },
        Err(e) => {
            let m = concat2("Error running PowerShell: ", e.as_str());
            InstallProgress::new(id, name, Status::Error, m)
        },
    }
}

} // verus!
