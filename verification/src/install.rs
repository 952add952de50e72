//! The decisions of a batch installation: each request is routed either to
//! the tweak runner or to the package manager, and each package manager run
//! is turned into the next step and the report the user sees.
use vstd::prelude::*;
use crate::command::{CommandOutput, run_succeeded, stdout_text, stderr_text, succeeded};
use crate::progress::{InstallProgress, Status, reports};
use crate::tweaks::{Tweak, tweak_id, lemma_tweak_ids_are_optimizations};
use crate::text::{
    chars_of, concat2, concat3, find_error_line, first_error_line, has_prefix, int_decimal,
    int_to_decimal, lines, starts_with, string_from_chars, trim, trimmed,
};

verus! {

/// Where a request goes.
#[derive(Clone, Copy, Debug, PartialEq, Eq, Structural)]
pub enum RequestKind {
    /// A system tweak, run by the tweak runner.
    Optimization,
    /// A package, installed through the package manager.
    Package,
}

/// Requests whose identifier starts with `Opt.` are tweaks.
pub open spec fn request_kind_of(id: Seq<char>) -> RequestKind {
    if starts_with(id, "Opt."@) {
        RequestKind::Optimization
    } else {
        RequestKind::Package
    }
}

/// Where the request with identifier `id` goes.
pub fn request_kind(id: &str) -> (k: RequestKind)
    ensures
        k == request_kind_of(id@),
{
    let v = chars_of(id);
    let p = chars_of("Opt.");
    if has_prefix(v.as_slice(), p.as_slice()) {
        RequestKind::Optimization
    } else {
        RequestKind::Package
    }
}

/// Every tweak's identifier routes its request to the tweak runner.
pub proof fn lemma_tweaks_route_to_runner(t: Tweak)
    ensures
        request_kind_of(tweak_id(t)) == RequestKind::Optimization,
{
    lemma_tweak_ids_are_optimizations(t);
}

/// The package after whose installation pip is upgraded.
pub const PIP_PACKAGE: &'static str = "Python.Python.3.12";

/// Announces that the installation state of a package is being checked.
pub fn checking(id: &str, name: &str) -> (p: InstallProgress)
    ensures
        reports(p, id@, name@, Status::Installing, "Checking status of "@ + name@ + "..."@),
{
    InstallProgress::new(id, name, Status::Installing, concat3("Checking status of ", name, "..."))
}

/// What follows the installation check.
pub enum CheckDecision {
    /// The package is installed already: report it skipped and go on.
    Skip(InstallProgress),
    /// Report the installation and run it.
    Install(InstallProgress),
}

/// Decides from the check run `check` whether to install the package: a
/// check that ran and succeeded means the package is there already.
pub fn after_check(id: &str, name: &str, check: &Result<CommandOutput, String>) -> (d:
    CheckDecision)
    ensures
        run_succeeded(*check) ==> (d matches CheckDecision::Skip(p) && reports(
            p,
            id@,
            name@,
            Status::Skipped,
            name@ + " is already installed"@,
        )),
        !run_succeeded(*check) ==> (d matches CheckDecision::Install(p) && reports(
            p,
            id@,
            name@,
            Status::Installing,
            "Installing "@ + name@ + "..."@,
        )),
{
    if succeeded(check) {
        CheckDecision::Skip(
            InstallProgress::new(id, name, Status::Skipped, concat2(name, " is already installed")),
        )
    } else {
        CheckDecision::Install(
            InstallProgress::new(id, name, Status::Installing, concat3("Installing ", name, "...")),
        )
    }
}

/// The detail of a failed installation: the exit code if there is one, and
/// the first line of the output (standard output, a line feed, then standard
/// error) that mentions `0x`, `error`, `failed` or `Error`, trimmed.
pub open spec fn failure_detail(o: CommandOutput) -> Seq<char> {
    let code: Seq<char> = match o.code {
        Some(c) => "Exit code: "@ + int_decimal(c as int),
        None => seq![],
    };
    match first_error_line(lines(stdout_text(o) + "\n"@ + stderr_text(o))) {
        Some(l) => if code.len() > 0 {
            code + ", details: "@ + trim(l)
        } else {
            trim(l)
        },
        None => code,
    }
}

/// The failure detail leads with the exit code when there is one, and
/// otherwise is the first failure line, trimmed; with neither it is empty.
pub proof fn lemma_failure_detail_parts(o: CommandOutput)
    ensures
        o.code matches Some(c) ==> starts_with(failure_detail(o), "Exit code: "@ + int_decimal(
            c as int,
        )),
        o.code is None ==> failure_detail(o) == match first_error_line(
            lines(stdout_text(o) + "\n"@ + stderr_text(o)),
        ) {
            Some(l) => trim(l),
            None => Seq::<char>::empty(),
        },
{
    if let Some(c) = o.code {
        let code = "Exit code: "@ + int_decimal(c as int);
        let d = failure_detail(o);
        if let Some(l) = first_error_line(lines(stdout_text(o) + "\n"@ + stderr_text(o))) {
            assert(d.subrange(0, code.len() as int) =~= code);
        } else {
            assert(d.subrange(0, code.len() as int) =~= code);
        }
    }
}

/// The detail of the failed installation `o`.
pub fn failure_detail_of(o: &CommandOutput) -> (d: String)
    ensures
        d@ == failure_detail(*o),
{
    let code = match o.code {
        Some(c) => concat2("Exit code: ", int_to_decimal(c).as_str()),
        None => String::new(),
    };
    let combined = concat3(o.stdout_string().as_str(), "\n", o.stderr_string().as_str());
    let v = chars_of(combined.as_str());
    match find_error_line(v.as_slice()) {
        Some((lo, hi)) => {
            let line = string_from_chars(v.as_slice(), lo, hi);
            let t = trimmed(line.as_str());
            if !code.as_str().is_empty() {
                concat3(code.as_str(), ", details: ", t.as_str())
            } else {
                t
            }
        },
        None => code,
    }
}

/// The message of a failed installation.
pub open spec fn failure_message(name: Seq<char>, o: CommandOutput) -> Seq<char> {
    if failure_detail(o).len() == 0 {
        "Failed to install "@ + name
    } else {
        "Failed to install "@ + name + ": "@ + failure_detail(o)
    }
}

/// What follows the installation.
pub enum InstallDecision {
    /// The Python package was installed: upgrade pip before reporting.
    UpgradePip,
    /// Report how the installation ended; this request is done.
    Report(InstallProgress),
}

/// Decides from the installation run `install` what comes next.
pub fn after_install(id: &str, name: &str, install: &Result<CommandOutput, String>) -> (d:
    InstallDecision)
    ensures
        match *install {
            Ok(o) => if o.success {
                if id@ == PIP_PACKAGE@ {
                    d is UpgradePip
                } else {
                    d matches InstallDecision::Report(p) && reports(
                        p,
                        id@,
                        name@,
                        Status::Done,
                        name@ + " installed successfully"@,
                    )
                }
            } else {
                d matches InstallDecision::Report(p) && reports(
                    p,
                    id@,
                    name@,
                    Status::Error,
                    failure_message(name@, o),
                )
            },
            Err(e) => d matches InstallDecision::Report(p) && reports(
                p,
                id@,
                name@,
                Status::Error,
                "Error running winget: "@ + e@,
            ),
        },
{
    match install {
        Ok(o) => {
            if o.success {
                if id.to_owned() == PIP_PACKAGE.to_owned() {
                    InstallDecision::UpgradePip
                } else {
                    InstallDecision::Report(
                        InstallProgress::new(
                            id,
                            name,
                            Status::Done,
                            concat2(name, " installed successfully"),
                        ),
                    )
                }
            } else {
                let detail = failure_detail_of(o);
                let m = if detail.as_str().is_empty() {
                    concat2("Failed to install ", name)
                } else {
                    let mut m = concat3("Failed to install ", name, ": ");
                    m.append(detail.as_str());
                    m
                };
                InstallDecision::Report(InstallProgress::new(id, name, Status::Error, m))
            }
        },
        Err(e) => InstallDecision::Report(
            InstallProgress::new(id, name, Status::Error, concat2("Error running winget: ", e.as_str())),
        ),
    }
}

/// The note that the pip upgrade adds to the success message.
pub open spec fn pip_note(run: Result<CommandOutput, String>) -> Seq<char> {
    match run {
        Ok(o) => if o.success {
            " and upgraded pip to the latest version."@
        } else {
            " (Note: Pip upgrade failed: "@ + trim(stderr_text(o)) + ")"@
        },
        Err(e) => " (Note: Could not run pip upgrade: "@ + e@ + ")"@,
    }
}

/// Reports the installation of the Python package once pip has been upgraded
/// (or has failed to be).
pub fn after_pip(id: &str, name: &str, pip: &Result<CommandOutput, String>) -> (p: InstallProgress)
    ensures
        reports(p, id@, name@, Status::Done, name@ + " installed successfully"@ + pip_note(*pip)),
{
    let mut m = concat2(name, " installed successfully");
    match pip {
        Ok(o) => {
            if o.success {
                m.append(" and upgraded pip to the latest version.");
                assert(m@ =~= name@ + " installed successfully"@ + pip_note(*pip));
            } else {
                let err = trimmed(o.stderr_string().as_str());
                m.append(" (Note: Pip upgrade failed: ");
                m.append(err.as_str());
                m.append(")");
                assert(m@ =~= name@ + " installed successfully"@ + pip_note(*pip));
            }
        },
        Err(e) => {
            m.append(" (Note: Could not run pip upgrade: ");
            m.append(e.as_str());
            m.append(")");
            assert(m@ =~= name@ + " installed successfully"@ + pip_note(*pip));
        },
    }
    InstallProgress::new(id, name, Status::Done, m)
}

} // verus!
