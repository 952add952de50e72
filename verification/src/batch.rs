//! A batch of install requests as a state machine: each step takes the
//! outcome of the last command and yields the reports to show, the next
//! command to run, or the end of the batch.
use vstd::prelude::*;
use crate::command::{
    CommandOutput, Invocation, invocation_view, powershell, powershell_view, pip_upgrade,
    pip_upgrade_view, run_succeeded, winget_check, winget_check_view, winget_install,
    winget_install_view,
};
use crate::install::{
    after_check, after_install, after_pip, checking, failure_message, pip_note, request_kind,
    request_kind_of, CheckDecision, InstallDecision, RequestKind, PIP_PACKAGE,
    lemma_tweaks_route_to_runner,
};
use crate::progress::{InstallProgress, Status};
use crate::text::contains_seq;
use crate::tweaks::{Tweak, tweak_id, tweak_named, lemma_tweak_named_id};
use crate::text::starts_with;
use crate::tweak_content::{apply_commands, lemma_apply_script_runs_its_commands};
use crate::runner::{
    revert_script, revert_script_for, NOT_REVERSIBLE, apply_script, apply_script_for, no_script, no_script_message, script_finished,
    script_report, script_start_message, script_started, ScriptPurpose,
};

verus! {

/// One entry of a batch: the identifier and display name of a package or a
/// tweak.
pub struct Request {
    pub id: String,
    pub name: String,
}

/// Where one request stands.
#[derive(Clone, Copy, Debug, PartialEq, Eq, Structural)]
pub enum Stage {
    /// The tweak's script is running.
    AwaitScript,
    /// The installation check is running.
    AwaitCheck,
    /// The installation is running.
    AwaitInstall,
    /// The pip upgrade is running.
    AwaitPip,
    /// The request has been reported on for the last time.
    Finished,
}

/// A report as identifier, name, status and message.
pub type ReportText = (Seq<char>, Seq<char>, Status, Seq<char>);

/// A command as program and arguments.
pub type CommandText = (Seq<char>, Seq<Seq<char>>);

/// The text of a report.
pub open spec fn report_text(p: InstallProgress) -> ReportText {
    (p.app_id@, p.app_name@, p.status, p.message@)
}

/// The texts of a sequence of reports.
pub open spec fn report_texts(v: Seq<InstallProgress>) -> Seq<ReportText> {
    v.map_values(|p: InstallProgress| report_text(p))
}

/// The text of an optional command.
pub open spec fn command_text(n: Option<Invocation>) -> Option<CommandText> {
    match n {
        Some(i) => Some(invocation_view(i)),
        None => None,
    }
}

/// The identifiers and names of a batch.
pub open spec fn request_texts(v: Seq<Request>) -> Seq<(Seq<char>, Seq<char>)> {
    v.map_values(|r: Request| (r.id@, r.name@))
}

/// One step of one request: its new stage, the reports to show, and the
/// command to run next.
pub struct Step {
    pub stage: Stage,
    pub reports: Vec<InstallProgress>,
    pub next: Option<Invocation>,
}

/// The text of a step.
pub open spec fn step_text(s: Step) -> (Stage, Seq<ReportText>, Option<CommandText>) {
    (s.stage, report_texts(s.reports@), command_text(s.next))
}

/// How a request starts: a tweak is announced and its script run, or, when
/// no tweak has its identifier, reported unknown; a package is announced as
/// being checked and the check run.
pub open spec fn begin_spec(id: Seq<char>, name: Seq<char>) -> (
    Stage,
    Seq<ReportText>,
    Option<CommandText>,
) {
    let start = (id, name, Status::Installing, script_start_message(ScriptPurpose::Apply, name));
    if request_kind_of(id) == RequestKind::Optimization {
        match apply_script_for(id) {
            Some(script) => (Stage::AwaitScript, seq![start], Some(powershell_view(script))),
            None => (
                Stage::Finished,
                seq![start, (id, name, Status::Error, no_script_message(ScriptPurpose::Apply))],
                None,
            ),
        }
    } else {
        (
            Stage::AwaitCheck,
            seq![(id, name, Status::Installing, "Checking status of "@ + name + "..."@)],
            Some(winget_check_view(id)),
        )
    }
}

/// How a request goes on once the command of its stage has run with the
/// outcome `run`.
pub open spec fn advance_spec(
    id: Seq<char>,
    name: Seq<char>,
    stage: Stage,
    run: Result<CommandOutput, String>,
) -> (Stage, Seq<ReportText>, Option<CommandText>) {
    match stage {
        Stage::AwaitScript => {
            let r = script_report(ScriptPurpose::Apply, name, run);
            (Stage::Finished, seq![(id, name, r.0, r.1)], None)
        },
        Stage::AwaitCheck => if run_succeeded(run) {
            (
                Stage::Finished,
                seq![(id, name, Status::Skipped, name + " is already installed"@)],
                None,
            )
        } else {
            (
                Stage::AwaitInstall,
                seq![(id, name, Status::Installing, "Installing "@ + name + "..."@)],
                Some(winget_install_view(id)),
            )
        },
        Stage::AwaitInstall => match run {
            Ok(o) => if o.success {
                if id == PIP_PACKAGE@ {
                    (Stage::AwaitPip, seq![], Some(pip_upgrade_view()))
                } else {
                    (
                        Stage::Finished,
                        seq![(id, name, Status::Done, name + " installed successfully"@)],
                        None,
                    )
                }
            } else {
                (Stage::Finished, seq![(id, name, Status::Error, failure_message(name, o))], None)
            },
            Err(e) => (
                Stage::Finished,
                seq![(id, name, Status::Error, "Error running winget: "@ + e@)],
                None,
            ),
        },
        Stage::AwaitPip => (
            Stage::Finished,
            seq![(id, name, Status::Done, name + " installed successfully"@ + pip_note(run))],
            None,
        ),
        Stage::Finished => (Stage::Finished, seq![], None),
    }
}

fn one_report(p: InstallProgress) -> (v: Vec<InstallProgress>)
    ensures
        report_texts(v@) == seq![report_text(p)],
{
    let mut v: Vec<InstallProgress> = Vec::new();
    v.push(p);
    assert(report_texts(v@) =~= seq![report_text(p)]);
    v
}

fn no_reports() -> (v: Vec<InstallProgress>)
    ensures
        report_texts(v@) == Seq::<ReportText>::empty(),
{
    let v: Vec<InstallProgress> = Vec::new();
    assert(report_texts(v@) =~= Seq::<ReportText>::empty());
    v
}

fn join_reports(a: Vec<InstallProgress>, b: Vec<InstallProgress>) -> (v: Vec<InstallProgress>)
    ensures
        report_texts(v@) == report_texts(a@) + report_texts(b@),
{
    let mut v = a;
    let mut rest = b;
    let ghost a0 = v@;
    let ghost b0 = rest@;
    v.append(&mut rest);
    assert(report_texts(v@) =~= report_texts(a0) + report_texts(b0));
    v
}

/// The first step of the request `id` named `name`.
pub fn begin(id: &str, name: &str) -> (s: Step)
    ensures
        step_text(s) == begin_spec(id@, name@),
{
    match request_kind(id) {
        RequestKind::Optimization => {
            let start = script_started(id, name, ScriptPurpose::Apply);
            match apply_script(id) {
                Some(script) => Step {
                    stage: Stage::AwaitScript,
                    reports: one_report(start),
                    next: Some(powershell(script)),
                },
                None => {
                    let unknown = no_script(id, name, ScriptPurpose::Apply);
                    Step {
                        stage: Stage::Finished,
                        reports: join_reports(one_report(start), one_report(unknown)),
                        next: None,
                    }
                },
            }
        },
        RequestKind::Package => Step {
            stage: Stage::AwaitCheck,
            reports: one_report(checking(id, name)),
            next: Some(winget_check(id)),
        },
    }
}

/// The step of the request `id` named `name` once the command of `stage` has
/// run with the outcome `run`.
pub fn advance(id: &str, name: &str, stage: Stage, run: &Result<CommandOutput, String>) -> (s:
    Step)
    ensures
        step_text(s) == advance_spec(id@, name@, stage, *run),
        stage == Stage::AwaitInstall ==> (s.stage == Stage::Finished || s.stage == Stage::AwaitPip)
            && (s.stage == Stage::Finished ==> s.reports@.len() == 1 && (s.reports@[0].status
            == Status::Done <==> run_succeeded(*run))),
        stage == Stage::AwaitPip ==> s.stage == Stage::Finished && s.reports@.len() == 1
            && s.reports@[0].status == Status::Done,
{
    proof {
        lemma_install_outcome_decides_status(id@, name@, *run);
        lemma_pip_outcome_keeps_success(id@, name@, *run);
    }
    let s = match stage {
        Stage::AwaitScript => Step {
            stage: Stage::Finished,
            reports: one_report(script_finished(id, name, ScriptPurpose::Apply, run)),
            next: None,
        },
        Stage::AwaitCheck => match after_check(id, name, run) {
            CheckDecision::Skip(p) => Step {
                stage: Stage::Finished,
                reports: one_report(p),
                next: None,
            },
            CheckDecision::Install(p) => Step {
                stage: Stage::AwaitInstall,
                reports: one_report(p),
                next: Some(winget_install(id)),
            },
        },
        Stage::AwaitInstall => match after_install(id, name, run) {
            InstallDecision::UpgradePip => Step {
                stage: Stage::AwaitPip,
                reports: no_reports(),
                next: Some(pip_upgrade()),
            },
            InstallDecision::Report(p) => Step {
                stage: Stage::Finished,
                reports: one_report(p),
                next: None,
            },
        },
        Stage::AwaitPip => Step {
            stage: Stage::Finished,
            reports: one_report(after_pip(id, name, run)),
            next: None,
        },
        Stage::Finished => Step { stage: Stage::Finished, reports: no_reports(), next: None },
    };
    proof {
        assert(report_texts(s.reports@).len() == s.reports@.len());
        if s.reports@.len() > 0 {
            assert(report_texts(s.reports@)[0].2 == s.reports@[0].status);
        }
    }
    s
}


/// Where a batch stands after a step: the request being worked on, its
/// stage, the reports of this step, whether the batch is complete, and the
/// command to run next.
pub struct BatchStep {
    pub index: usize,
    pub stage: Stage,
    pub reports: Vec<InstallProgress>,
    pub complete: bool,
    pub next: Option<Invocation>,
}

/// The text of a batch step.
pub open spec fn batch_text(s: BatchStep) -> (int, Stage, Seq<ReportText>, bool, Option<CommandText>) {
    (s.index as int, s.stage, report_texts(s.reports@), s.complete, command_text(s.next))
}

/// Starts requests from the `k`-th on until one waits for a command; when
/// none is left, the batch is complete.
pub open spec fn settle_spec(rs: Seq<(Seq<char>, Seq<char>)>, k: int) -> (
    int,
    Stage,
    Seq<ReportText>,
    bool,
    Option<CommandText>,
)
    decreases rs.len() - k,
{
    if k >= rs.len() {
        (rs.len() as int, Stage::Finished, seq![], true, None)
    } else {
        let b = begin_spec(rs[k].0, rs[k].1);
        if b.0 != Stage::Finished {
            (k, b.0, b.1, false, b.2)
        } else {
            let s = settle_spec(rs, k + 1);
            (s.0, s.1, b.1 + s.2, s.3, s.4)
        }
    }
}

/// The batch step once the command of request `i` in `stage` has run with
/// the outcome `run`.
pub open spec fn batch_step_spec(
    rs: Seq<(Seq<char>, Seq<char>)>,
    i: int,
    stage: Stage,
    run: Result<CommandOutput, String>,
) -> (int, Stage, Seq<ReportText>, bool, Option<CommandText>) {
    let a = advance_spec(rs[i].0, rs[i].1, stage, run);
    if a.0 != Stage::Finished {
        (i, a.0, a.1, false, a.2)
    } else {
        let s = settle_spec(rs, i + 1);
        (s.0, s.1, a.1 + s.2, s.3, s.4)
    }
}

/// A request that is not finished after its first step has a command to run.
pub proof fn lemma_begin_waits_on_command(id: Seq<char>, name: Seq<char>)
    ensures
        begin_spec(id, name).0 != Stage::Finished ==> begin_spec(id, name).2 is Some,
{
}

/// A request that is not finished after a later step has a command to run.
pub proof fn lemma_advance_waits_on_command(
    id: Seq<char>,
    name: Seq<char>,
    stage: Stage,
    run: Result<CommandOutput, String>,
)
    ensures
        advance_spec(id, name, stage, run).0 != Stage::Finished ==> advance_spec(
            id,
            name,
            stage,
            run,
        ).2 is Some,
{
}

/// A batch is complete exactly when it has passed its last request; until
/// then it waits on a request that is not finished and has a command to run.
pub proof fn lemma_settle_shape(rs: Seq<(Seq<char>, Seq<char>)>, k: int)
    requires
        0 <= k <= rs.len(),
    ensures
        settle_spec(rs, k).3 <==> settle_spec(rs, k).0 == rs.len(),
        !settle_spec(rs, k).3 ==> k <= settle_spec(rs, k).0 < rs.len() && settle_spec(rs, k).1
            != Stage::Finished && settle_spec(rs, k).4 is Some,
    decreases rs.len() - k,
{
    if k < rs.len() {
        lemma_begin_waits_on_command(rs[k].0, rs[k].1);
        if begin_spec(rs[k].0, rs[k].1).0 == Stage::Finished {
            lemma_settle_shape(rs, k + 1);
        }
    }
}

fn settle(reqs: &Vec<Request>, k: usize, done: Vec<InstallProgress>) -> (s: BatchStep)
    requires
        k <= reqs@.len(),
    ensures
        batch_text(s) == {
            let t = settle_spec(request_texts(reqs@), k as int);
            (t.0, t.1, report_texts(done@) + t.2, t.3, t.4)
        },
    decreases reqs@.len() - k,
{
    let ghost rs = request_texts(reqs@);
    if k >= reqs.len() {
        assert(report_texts(done@) + Seq::<ReportText>::empty() =~= report_texts(done@));
        return BatchStep {
            index: reqs.len(),
            stage: Stage::Finished,
            reports: done,
            complete: true,
            next: None,
        };
    }
    assert(rs[k as int] == (reqs@[k as int].id@, reqs@[k as int].name@));
    let b = begin(reqs[k].id.as_str(), reqs[k].name.as_str());
    let ghost bt = step_text(b);
    let reports = join_reports(done, b.reports);
    if b.stage != Stage::Finished {
        BatchStep { index: k, stage: b.stage, reports, complete: false, next: b.next }
    } else {
        let s = settle(reqs, k + 1, reports);
        proof {
            let t = settle_spec(rs, k + 1);
            assert(report_texts(done@) + bt.1 + t.2 =~= report_texts(done@) + (bt.1 + t.2));
        }
        s
    }
}

/// The first step of the batch `reqs`.
pub fn batch_start(reqs: &Vec<Request>) -> (s: BatchStep)
    ensures
        batch_text(s) == settle_spec(request_texts(reqs@), 0),
        s.complete == (s.index == reqs@.len()),
        !s.complete ==> s.index < reqs@.len() && s.stage != Stage::Finished && s.next is Some,
{
    let s = settle(reqs, 0, no_reports());
    proof {
        let t = settle_spec(request_texts(reqs@), 0);
        assert(Seq::<ReportText>::empty() + t.2 =~= t.2);
        lemma_settle_shape(request_texts(reqs@), 0);
    }
    s
}

/// The step of the batch `reqs` once the command of request `index` in
/// `stage` has run with the outcome `run`.
pub fn batch_advance(
    reqs: &Vec<Request>,
    index: usize,
    stage: Stage,
    run: &Result<CommandOutput, String>,
) -> (s: BatchStep)
    requires
        index < reqs@.len(),
    ensures
        batch_text(s) == batch_step_spec(request_texts(reqs@), index as int, stage, *run),
        s.complete == (s.index == reqs@.len()),
        !s.complete ==> s.index < reqs@.len() && s.stage != Stage::Finished && s.next is Some,
{
    let ghost rs = request_texts(reqs@);
    let n = reqs.len();
    assert(rs[index as int] == (reqs@[index as int].id@, reqs@[index as int].name@));
    let a = advance(reqs[index].id.as_str(), reqs[index].name.as_str(), stage, run);
    proof {
        lemma_advance_waits_on_command(rs[index as int].0, rs[index as int].1, stage, *run);
    }
    if a.stage != Stage::Finished {
        BatchStep { index, stage: a.stage, reports: a.reports, complete: false, next: a.next }
    } else {
        proof {
            lemma_settle_shape(rs, index + 1);
        }
        settle(reqs, index + 1, a.reports)
    }
}


/// The reports of a batch waiting on request `i` in `stage` when the
/// outcomes `runs` come back in turn, and whether it completes; outcomes left
/// over once it completes go unused.
pub open spec fn run_steps(
    rs: Seq<(Seq<char>, Seq<char>)>,
    i: int,
    stage: Stage,
    runs: Seq<Result<CommandOutput, String>>,
) -> (Seq<ReportText>, bool)
    decreases runs.len(),
{
    if runs.len() == 0 {
        (seq![], false)
    } else {
        let s = batch_step_spec(rs, i, stage, runs[0]);
        if s.3 {
            (s.2, true)
        } else {
            let r = run_steps(rs, s.0, s.1, runs.drop_first());
            (s.2 + r.0, r.1)
        }
    }
}

/// The reports of a batch from request `k` on, driven step by step.
pub open spec fn settled_trace(
    rs: Seq<(Seq<char>, Seq<char>)>,
    k: int,
    runs: Seq<Result<CommandOutput, String>>,
) -> (Seq<ReportText>, bool) {
    let s = settle_spec(rs, k);
    if s.3 {
        (s.2, true)
    } else {
        let r = run_steps(rs, s.0, s.1, runs);
        (s.2 + r.0, r.1)
    }
}

/// The reports of the whole batch `rs`, driven step by step from
/// [`batch_start`] through [`batch_advance`] with the outcomes `runs`, and
/// whether it completes.
pub open spec fn batch_trace(
    rs: Seq<(Seq<char>, Seq<char>)>,
    runs: Seq<Result<CommandOutput, String>>,
) -> (Seq<ReportText>, bool) {
    settled_trace(rs, 0, runs)
}

/// The reports of one request in `stage` fed the outcomes `runs`, whether
/// it finishes, and how many outcomes it uses.
pub open spec fn request_run(
    id: Seq<char>,
    name: Seq<char>,
    stage: Stage,
    runs: Seq<Result<CommandOutput, String>>,
) -> (Seq<ReportText>, bool, nat)
    decreases runs.len(),
{
    if stage == Stage::Finished {
        (seq![], true, 0)
    } else if runs.len() == 0 {
        (seq![], false, 0)
    } else {
        let a = advance_spec(id, name, stage, runs[0]);
        let r = request_run(id, name, a.0, runs.drop_first());
        (a.1 + r.0, r.1, r.2 + 1)
    }
}

/// The reports of one request from its start.
pub open spec fn request_trace(
    id: Seq<char>,
    name: Seq<char>,
    runs: Seq<Result<CommandOutput, String>>,
) -> (Seq<ReportText>, bool, nat) {
    let b = begin_spec(id, name);
    let r = request_run(id, name, b.0, runs);
    (b.1 + r.0, r.1, r.2)
}

/// The reports of the requests from the `k`-th on, taken one after the
/// other, each using the outcomes that the previous ones left.
pub open spec fn requests_trace(
    rs: Seq<(Seq<char>, Seq<char>)>,
    k: int,
    runs: Seq<Result<CommandOutput, String>>,
) -> (Seq<ReportText>, bool)
    decreases rs.len() - k,
{
    if k >= rs.len() {
        (seq![], true)
    } else {
        let t = request_trace(rs[k].0, rs[k].1, runs);
        if !t.1 {
            (t.0, false)
        } else {
            let rest = requests_trace(rs, k + 1, runs.skip(t.2 as int));
            (t.0 + rest.0, rest.1)
        }
    }
}

/// What follows request `i` once it has run as `r`.
pub open spec fn after_request(
    rs: Seq<(Seq<char>, Seq<char>)>,
    i: int,
    r: (Seq<ReportText>, bool, nat),
    runs: Seq<Result<CommandOutput, String>>,
) -> (Seq<ReportText>, bool) {
    if !r.1 {
        (r.0, false)
    } else {
        let rest = requests_trace(rs, i + 1, runs.skip(r.2 as int));
        (r.0 + rest.0, rest.1)
    }
}

/// A request never uses more outcomes than it is given.
pub proof fn lemma_request_run_used(
    id: Seq<char>,
    name: Seq<char>,
    stage: Stage,
    runs: Seq<Result<CommandOutput, String>>,
)
    ensures
        request_run(id, name, stage, runs).2 <= runs.len(),
    decreases runs.len(),
{
    if stage != Stage::Finished && runs.len() > 0 {
        let a = advance_spec(id, name, stage, runs[0]);
        lemma_request_run_used(id, name, a.0, runs.drop_first());
    }
}

proof fn lemma_steps_follow_request(
    rs: Seq<(Seq<char>, Seq<char>)>,
    i: int,
    stage: Stage,
    runs: Seq<Result<CommandOutput, String>>,
)
    requires
        0 <= i < rs.len(),
        stage != Stage::Finished,
    ensures
        run_steps(rs, i, stage, runs) == after_request(
            rs,
            i,
            request_run(rs[i].0, rs[i].1, stage, runs),
            runs,
        ),
    decreases runs.len(), 0int,
{
    if runs.len() > 0 {
        let a = advance_spec(rs[i].0, rs[i].1, stage, runs[0]);
        let tail = runs.drop_first();
        if a.0 != Stage::Finished {
            lemma_steps_follow_request(rs, i, a.0, tail);
            let rr = request_run(rs[i].0, rs[i].1, a.0, tail);
            lemma_request_run_used(rs[i].0, rs[i].1, a.0, tail);
            if rr.1 {
                assert(runs.skip(rr.2 + 1int) =~= tail.skip(rr.2 as int));
                let rest = requests_trace(rs, i + 1, tail.skip(rr.2 as int));
                assert(a.1 + (rr.0 + rest.0) =~= a.1 + rr.0 + rest.0);
            }
        } else {
            lemma_settle_follows_requests(rs, i + 1, tail);
            assert(runs.skip(1) =~= tail);
            let st = settle_spec(rs, i + 1);
            if !st.3 {
                let r2 = run_steps(rs, st.0, st.1, tail);
                assert(a.1 + st.2 + r2.0 =~= a.1 + (st.2 + r2.0));
            }
            assert(request_run(rs[i].0, rs[i].1, a.0, tail) == (Seq::<ReportText>::empty(), true, 0nat));
            assert(a.1 + Seq::<ReportText>::empty() =~= a.1);
        }
    }
}

proof fn lemma_settle_follows_requests(
    rs: Seq<(Seq<char>, Seq<char>)>,
    k: int,
    runs: Seq<Result<CommandOutput, String>>,
)
    requires
        0 <= k <= rs.len(),
    ensures
        settled_trace(rs, k, runs) == requests_trace(rs, k, runs),
    decreases runs.len(), rs.len() - k + 1,
{
    if k < rs.len() {
        let b = begin_spec(rs[k].0, rs[k].1);
        if b.0 != Stage::Finished {
            lemma_steps_follow_request(rs, k, b.0, runs);
            let rr = request_run(rs[k].0, rs[k].1, b.0, runs);
            if rr.1 {
                let rest = requests_trace(rs, k + 1, runs.skip(rr.2 as int));
                assert(b.1 + (rr.0 + rest.0) =~= b.1 + rr.0 + rest.0);
            }
        } else {
            lemma_settle_follows_requests(rs, k + 1, runs);
            assert(runs.skip(0) =~= runs);
            assert(b.1 + Seq::<ReportText>::empty() =~= b.1);
            let st = settle_spec(rs, k + 1);
            if !st.3 {
                let r2 = run_steps(rs, st.0, st.1, runs);
                assert(b.1 + st.2 + r2.0 =~= b.1 + (st.2 + r2.0));
            }
        }
    }
}

/// Driving a batch step by step reports on its requests one after the
/// other, in order: all reports of a request come before those of the next,
/// and the batch completes only once every request has finished.
pub proof fn lemma_batch_reports_requests_in_order(
    rs: Seq<(Seq<char>, Seq<char>)>,
    runs: Seq<Result<CommandOutput, String>>,
)
    ensures
        batch_trace(rs, runs) == requests_trace(rs, 0, runs),
{
    lemma_settle_follows_requests(rs, 0, runs);
}


/// The reports of one request, well formed: at least one; all but the last
/// announce work in progress, the last one is done, an error or skipped; and
/// all of them are about that request.
pub open spec fn request_shaped(rts: Seq<ReportText>, id: Seq<char>, name: Seq<char>) -> bool {
    &&& rts.len() >= 1
    &&& rts.last().2 != Status::Installing
    &&& forall|j: int| 0 <= j < rts.len() - 1 ==> (#[trigger] rts[j]).2 == Status::Installing
    &&& forall|j: int| 0 <= j < rts.len() ==> (#[trigger] rts[j]).0 == id && rts[j].1 == name
}

/// Reports that all announce work in progress on the request `id` named
/// `name`.
pub open spec fn all_in_progress(rts: Seq<ReportText>, id: Seq<char>, name: Seq<char>) -> bool {
    forall|j: int|
        0 <= j < rts.len() ==> (#[trigger] rts[j]).2 == Status::Installing && rts[j].0 == id
            && rts[j].1 == name
}

proof fn lemma_shaped_prefix(p: Seq<ReportText>, q: Seq<ReportText>, id: Seq<char>, name: Seq<char>)
    requires
        all_in_progress(p, id, name),
        request_shaped(q, id, name),
    ensures
        request_shaped(p + q, id, name),
{
    let c = p + q;
    assert(c.last() == q.last());
    assert forall|j: int| 0 <= j < c.len() - 1 implies (#[trigger] c[j]).2 == Status::Installing by {
        if j >= p.len() {
            assert(c[j] == q[j - p.len()]);
        }
    }
    assert forall|j: int| 0 <= j < c.len() implies (#[trigger] c[j]).0 == id && c[j].1 == name by {
        if j >= p.len() {
            assert(c[j] == q[j - p.len()]);
        }
    }
}

/// How many more outcomes a request in `stage` needs at most.
pub open spec fn stage_rank(stage: Stage) -> nat {
    match stage {
        Stage::AwaitScript => 1,
        Stage::AwaitCheck => 3,
        Stage::AwaitInstall => 2,
        Stage::AwaitPip => 1,
        Stage::Finished => 0,
    }
}

proof fn lemma_advance_progress(
    id: Seq<char>,
    name: Seq<char>,
    stage: Stage,
    run: Result<CommandOutput, String>,
)
    requires
        stage != Stage::Finished,
    ensures
        stage_rank(advance_spec(id, name, stage, run).0) < stage_rank(stage),
        advance_spec(id, name, stage, run).0 != Stage::Finished ==> all_in_progress(
            advance_spec(id, name, stage, run).1,
            id,
            name,
        ),
        advance_spec(id, name, stage, run).0 == Stage::Finished ==> request_shaped(
            advance_spec(id, name, stage, run).1,
            id,
            name,
        ),
{
    let a = advance_spec(id, name, stage, run);
    if a.0 == Stage::Finished {
        assert(a.1.len() == 1);
        assert(a.1.last() == a.1[0]);
    }
}

proof fn lemma_run_shaped(
    id: Seq<char>,
    name: Seq<char>,
    stage: Stage,
    runs: Seq<Result<CommandOutput, String>>,
)
    requires
        stage != Stage::Finished,
        request_run(id, name, stage, runs).1,
    ensures
        request_shaped(request_run(id, name, stage, runs).0, id, name),
    decreases runs.len(),
{
    let a = advance_spec(id, name, stage, runs[0]);
    lemma_advance_progress(id, name, stage, runs[0]);
    if a.0 == Stage::Finished {
        assert(request_run(id, name, a.0, runs.drop_first()).0 == Seq::<ReportText>::empty());
        assert(a.1 + Seq::<ReportText>::empty() =~= a.1);
    } else {
        lemma_run_shaped(id, name, a.0, runs.drop_first());
        lemma_shaped_prefix(a.1, request_run(id, name, a.0, runs.drop_first()).0, id, name);
    }
}

/// A request that finishes is reported on in order: work in progress, then
/// exactly one final report (done, error or skipped), all about that request.
pub proof fn lemma_request_reports_shaped(
    id: Seq<char>,
    name: Seq<char>,
    runs: Seq<Result<CommandOutput, String>>,
)
    requires
        request_trace(id, name, runs).1,
    ensures
        request_shaped(request_trace(id, name, runs).0, id, name),
{
    let b = begin_spec(id, name);
    if b.0 == Stage::Finished {
        assert(b.1 + Seq::<ReportText>::empty() =~= b.1);
        assert(b.1.len() == 2);
        assert(b.1.last() == b.1[1]);
    } else {
        lemma_run_shaped(id, name, b.0, runs);
        assert(b.1.len() == 1);
        lemma_shaped_prefix(b.1, request_run(id, name, b.0, runs).0, id, name);
    }
}

proof fn lemma_run_finishes(
    id: Seq<char>,
    name: Seq<char>,
    stage: Stage,
    runs: Seq<Result<CommandOutput, String>>,
)
    requires
        runs.len() >= stage_rank(stage),
    ensures
        request_run(id, name, stage, runs).1,
        request_run(id, name, stage, runs).2 <= stage_rank(stage),
    decreases runs.len(),
{
    if stage != Stage::Finished {
        let a = advance_spec(id, name, stage, runs[0]);
        lemma_advance_progress(id, name, stage, runs[0]);
        lemma_run_finishes(id, name, a.0, runs.drop_first());
    }
}

/// Every request finishes within three command outcomes.
pub proof fn lemma_request_finishes(
    id: Seq<char>,
    name: Seq<char>,
    runs: Seq<Result<CommandOutput, String>>,
)
    requires
        runs.len() >= 3,
    ensures
        request_trace(id, name, runs).1,
        request_trace(id, name, runs).2 <= 3,
{
    lemma_run_finishes(id, name, begin_spec(id, name).0, runs);
}

proof fn lemma_requests_complete(
    rs: Seq<(Seq<char>, Seq<char>)>,
    k: int,
    runs: Seq<Result<CommandOutput, String>>,
)
    requires
        0 <= k <= rs.len(),
        runs.len() >= 3 * (rs.len() - k),
    ensures
        requests_trace(rs, k, runs).1,
    decreases rs.len() - k,
{
    if k < rs.len() {
        lemma_request_finishes(rs[k].0, rs[k].1, runs);
        let t = request_trace(rs[k].0, rs[k].1, runs);
        lemma_requests_complete(rs, k + 1, runs.skip(t.2 as int));
    }
}

/// A batch completes once its commands have come back at most three times
/// per request.
pub proof fn lemma_batch_completes(
    rs: Seq<(Seq<char>, Seq<char>)>,
    runs: Seq<Result<CommandOutput, String>>,
)
    requires
        runs.len() >= 3 * rs.len(),
    ensures
        batch_trace(rs, runs).1,
{
    lemma_batch_reports_requests_in_order(rs, runs);
    lemma_requests_complete(rs, 0, runs);
}


/// The start of a revert request: the reports to show, the script to run,
/// and what the request returns.
pub struct RevertPlan {
    pub reports: Vec<InstallProgress>,
    pub next: Option<Invocation>,
    pub result: Result<(), String>,
}

/// How a revert request for the tweak `id` named `name` starts. It is
/// announced; a tweak with a revert script has it run and the request
/// returns success however the script fares (its own report follows from
/// [`script_finished`]); any other identifier is reported as not revertible
/// and the request returns `Not reversible`.
pub fn revert_begin(id: &str, name: &str) -> (p: RevertPlan)
    ensures
        match revert_script_for(id@) {
            Some(script) => {
                &&& report_texts(p.reports@) == seq![
                    (id@, name@, Status::Installing, script_start_message(ScriptPurpose::Revert, name@)),
                ]
                &&& command_text(p.next) == Some(powershell_view(script))
                &&& p.result is Ok
            },
            None => {
                &&& report_texts(p.reports@) == seq![
                    (id@, name@, Status::Installing, script_start_message(ScriptPurpose::Revert, name@)),
                    (id@, name@, Status::Error, no_script_message(ScriptPurpose::Revert)),
                ]
                &&& p.next is None
                &&& p.result matches Err(e) && e@ == NOT_REVERSIBLE@
            },
        },
{
    let start = script_started(id, name, ScriptPurpose::Revert);
    match revert_script(id) {
        Some(script) => RevertPlan {
            reports: one_report(start),
            next: Some(powershell(script)),
            result: Ok(()),
        },
        None => RevertPlan {
            reports: join_reports(one_report(start), one_report(no_script(id, name, ScriptPurpose::Revert))),
            next: None,
            result: Err(NOT_REVERSIBLE.to_owned()),
        },
    }
}


/// Once the installation has run, the request is reported done exactly when
/// the installer started and exited successfully, and as an error otherwise;
/// only a successful installation of the Python package goes on, to the pip
/// upgrade.
pub proof fn lemma_install_outcome_decides_status(
    id: Seq<char>,
    name: Seq<char>,
    run: Result<CommandOutput, String>,
)
    ensures
        ({
            let a = advance_spec(id, name, Stage::AwaitInstall, run);
            &&& a.0 == Stage::Finished || a.0 == Stage::AwaitPip
            &&& a.0 == Stage::AwaitPip <==> (run_succeeded(run) && id == PIP_PACKAGE@)
            &&& a.0 == Stage::Finished ==> a.1.len() == 1 && a.1[0].0 == id && a.1[0].1 == name
                && (a.1[0].2 == Status::Done <==> run_succeeded(run)) && (a.1[0].2
                == Status::Error <==> !run_succeeded(run))
        }),
{
}

/// The pip upgrade never makes an installed package fail: whatever its
/// outcome, the request is reported done.
pub proof fn lemma_pip_outcome_keeps_success(
    id: Seq<char>,
    name: Seq<char>,
    run: Result<CommandOutput, String>,
)
    ensures
        ({
            let a = advance_spec(id, name, Stage::AwaitPip, run);
            &&& a.0 == Stage::Finished
            &&& a.1.len() == 1
            &&& a.1[0].2 == Status::Done
            &&& a.1[0].0 == id && a.1[0].1 == name
        }),
{
}

/// For a package request fed the outcomes of its check, its installation
/// and, if it comes to that, its pip upgrade: a package the check finds is
/// reported skipped; otherwise the last report is done exactly when the
/// installation ran successfully, whatever the pip upgrade does.
pub proof fn lemma_package_final_status(
    id: Seq<char>,
    name: Seq<char>,
    runs: Seq<Result<CommandOutput, String>>,
)
    requires
        request_kind_of(id) == RequestKind::Package,
        runs.len() >= 3,
    ensures
        request_trace(id, name, runs).1,
        run_succeeded(runs[0]) ==> request_trace(id, name, runs).0.last().2 == Status::Skipped,
        !run_succeeded(runs[0]) ==> (request_trace(id, name, runs).0.last().2 == Status::Done
            <==> run_succeeded(runs[1])),
{
    lemma_request_finishes(id, name, runs);
    let b = begin_spec(id, name);
    assert(b.0 == Stage::AwaitCheck);
    let r0 = runs.drop_first();
    let a0 = advance_spec(id, name, Stage::AwaitCheck, runs[0]);
    let rr0 = request_run(id, name, a0.0, r0);
    assert(request_run(id, name, b.0, runs).0 == a0.1 + rr0.0);
    assert(request_trace(id, name, runs).0 == b.1 + (a0.1 + rr0.0));
    assert(r0[0] == runs[1]);
    if run_succeeded(runs[0]) {
        assert(rr0 == (Seq::<ReportText>::empty(), true, 0nat));
        let all = b.1 + (a0.1 + Seq::<ReportText>::empty());
        assert(all.last() == a0.1[0]);
    } else {
        let a1 = advance_spec(id, name, Stage::AwaitInstall, runs[1]);
        let r1 = r0.drop_first();
        let rr1 = request_run(id, name, a1.0, r1);
        assert(rr0.0 == a1.1 + rr1.0);
        lemma_install_outcome_decides_status(id, name, runs[1]);
        if a1.0 == Stage::Finished {
            assert(rr1 == (Seq::<ReportText>::empty(), true, 0nat));
            let all = b.1 + (a0.1 + (a1.1 + Seq::<ReportText>::empty()));
            assert(all.last() == a1.1[0]);
        } else {
            assert(r1[0] == runs[2]);
            let a2 = advance_spec(id, name, Stage::AwaitPip, runs[2]);
            lemma_pip_outcome_keeps_success(id, name, runs[2]);
            let r2 = r1.drop_first();
            assert(rr1.0 == a2.1 + request_run(id, name, a2.0, r2).0);
            assert(request_run(id, name, a2.0, r2) == (Seq::<ReportText>::empty(), true, 0nat));
            let all = b.1 + (a0.1 + (a1.1 + (a2.1 + Seq::<ReportText>::empty())));
            assert(all.last() == a2.1[0]);
            assert(run_succeeded(runs[1]));
        }
    }
}

/// A request for a tweak runs, in PowerShell, the script that holds every
/// command of that tweak.
pub proof fn lemma_tweak_request_runs_its_commands(t: Tweak, name: Seq<char>)
    ensures
        begin_spec(tweak_id(t), name).0 == Stage::AwaitScript,
        begin_spec(tweak_id(t), name).2 matches Some(c) && c.0 == "powershell"@ && c.1.len() == 4
            && forall|j: int|
            0 <= j < apply_commands(t).len() ==> contains_seq(c.1[3], #[trigger] apply_commands(t)[j]),
{
    lemma_tweaks_route_to_runner(t);
    lemma_tweak_named_id(t);
    lemma_apply_script_runs_its_commands(t);
}


/// After the installation check, a package the check finds installed is
/// reported skipped and finished; any other outcome leads on to installing
/// it, announced, with the installer as the next command.
pub proof fn lemma_check_outcome_decides_install(
    id: Seq<char>,
    name: Seq<char>,
    run: Result<CommandOutput, String>,
)
    ensures
        ({
            let a = advance_spec(id, name, Stage::AwaitCheck, run);
            &&& run_succeeded(run) ==> a.0 == Stage::Finished && a.1.len() == 1 && a.1[0].2
                == Status::Skipped
            &&& !run_succeeded(run) ==> a.0 == Stage::AwaitInstall && a.1.len() == 1 && a.1[0].2
                == Status::Installing && a.2 == Some(winget_install_view(id))
        }),
{
}

/// A request whose identifier does not start with `Opt.` goes to the
/// package manager, beginning with the installation check of that package.
pub proof fn lemma_packages_are_checked_first(id: Seq<char>, name: Seq<char>)
    requires
        !starts_with(id, "Opt."@),
    ensures
        begin_spec(id, name).0 == Stage::AwaitCheck,
        begin_spec(id, name).2 == Some(winget_check_view(id)),
{
}

/// A request whose identifier starts with `Opt.` but names no tweak is
/// finished at once, its last report an error, and nothing is run.
pub proof fn lemma_unknown_tweaks_fail(id: Seq<char>, name: Seq<char>)
    requires
        starts_with(id, "Opt."@),
        tweak_named(id) is None,
    ensures
        begin_spec(id, name).0 == Stage::Finished,
        begin_spec(id, name).2 is None,
        begin_spec(id, name).1.last().2 == Status::Error,
{
    assert(begin_spec(id, name).1.len() == 2);
}

} // verus!
