//! What the assistant asks the operating system to run, and what a finished
//! run reports back.
use vstd::prelude::*;
use vstd::utf8::{decode_utf8, valid_utf8};
use crate::text::string_views;

verus! {

/// A program and its arguments.
pub struct Invocation {
    pub program: String,
    pub args: Vec<String>,
}

/// What a finished process reported: whether it exited successfully, its
/// exit code if it had one, and the raw bytes of its two output streams.
pub struct CommandOutput {
    pub success: bool,
    pub code: Option<i32>,
    pub stdout: Vec<u8>,
    pub stderr: Vec<u8>,
}

/// The text that `String::from_utf8_lossy` makes of `bytes`.
pub uninterp spec fn utf8_lossy(bytes: Seq<u8>) -> Seq<char>;

/// `String::from_utf8_lossy`: decodes `bytes`, putting U+FFFD in place of
/// each invalid sequence. Its documentation promises that valid UTF-8 is
/// decoded as it is; what it makes of invalid input is left to the name.
#[verifier::external_body]
fn decode_lossy(bytes: &[u8]) -> (s: String)
    ensures
        s@ == utf8_lossy(bytes@),
        valid_utf8(bytes@) ==> s@ == decode_utf8(bytes@),
{
    String::from_utf8_lossy(bytes).into_owned()
}

/// The standard output of a run, as text.
pub open spec fn stdout_text(o: CommandOutput) -> Seq<char> {
    utf8_lossy(o.stdout@)
}

/// The standard error of a run, as text.
pub open spec fn stderr_text(o: CommandOutput) -> Seq<char> {
    utf8_lossy(o.stderr@)
}

impl CommandOutput {
    /// The standard output as text.
    pub fn stdout_string(&self) -> (s: String)
        ensures
            s@ == stdout_text(*self),
            valid_utf8(self.stdout@) ==> s@ == decode_utf8(self.stdout@),
    {
        decode_lossy(self.stdout.as_slice())
    }

    /// The standard error as text.
    pub fn stderr_string(&self) -> (s: String)
        ensures
            s@ == stderr_text(*self),
            valid_utf8(self.stderr@) ==> s@ == decode_utf8(self.stderr@),
    {
        decode_lossy(self.stderr.as_slice())
    }
}

/// A run succeeded: the process started and exited successfully.
pub open spec fn run_succeeded(run: Result<CommandOutput, String>) -> bool {
    match run {
        Ok(o) => o.success,
        Err(_) => false,
    }
}

/// Whether the process started and exited successfully; a process that could
/// not be started counts as a failure.
pub fn succeeded(run: &Result<CommandOutput, String>) -> (b: bool)
    ensures
        b == run_succeeded(*run),
{
    match run {
        Ok(o) => o.success,
        Err(_) => false,
    }
}

fn owned_args(parts: &[&str]) -> (v: Vec<String>)
    ensures
        v@.len() == parts@.len(),
        forall|i: int| 0 <= i < parts@.len() ==> #[trigger] v@[i]@ == parts@[i]@,
{
    let mut v: Vec<String> = Vec::new();
    let mut i: usize = 0;
    while i < parts.len()
        invariant
            i <= parts@.len(),
            v@.len() == i,
            forall|j: int| 0 <= j < i ==> #[trigger] v@[j]@ == parts@[j]@,
        decreases parts@.len() - i,
    {
        v.push(parts[i].to_owned());
        i = i + 1;
    }
    v
}

/// An invocation as its program and arguments.
pub open spec fn invocation_view(inv: Invocation) -> (Seq<char>, Seq<Seq<char>>) {
    (inv.program@, string_views(inv.args@))
}

/// The PowerShell invocation that runs `script`.
pub open spec fn powershell_view(script: Seq<char>) -> (Seq<char>, Seq<Seq<char>>) {
    ("powershell"@, seq!["-NoProfile"@, "-NonInteractive"@, "-Command"@, script])
}

/// The invocation that checks whether the package `id` is installed.
pub open spec fn winget_check_view(id: Seq<char>) -> (Seq<char>, Seq<Seq<char>>) {
    ("winget"@, seq!["list"@, "--id"@, id])
}

/// The invocation that installs the package `id`.
pub open spec fn winget_install_view(id: Seq<char>) -> (Seq<char>, Seq<Seq<char>>) {
    (
        "winget"@,
        seq![
            "install"@,
            "--id"@,
            id,
            "--silent"@,
            "--accept-package-agreements"@,
            "--accept-source-agreements"@,
        ],
    )
}

/// The invocation that upgrades pip.
pub open spec fn pip_upgrade_view() -> (Seq<char>, Seq<Seq<char>>) {
    ("cmd"@, seq!["/c"@, "python -m pip install --upgrade pip"@])
}

/// PowerShell, without profile or prompts, running `script`.
pub fn powershell(script: &str) -> (inv: Invocation)
    ensures
        inv.program@ == "powershell"@,
        string_views(inv.args@) == seq!["-NoProfile"@, "-NonInteractive"@, "-Command"@, script@],
        invocation_view(inv) == powershell_view(script@),
{
    let parts: [&str; 4] = ["-NoProfile", "-NonInteractive", "-Command", script];
    let args = owned_args(&parts);
    assert(string_views(args@) =~= seq!["-NoProfile"@, "-NonInteractive"@, "-Command"@, script@]);
    Invocation { program: "powershell".to_owned(), args }
}

/// `winget list --id <id>`, which succeeds when the package is installed.
pub fn winget_check(id: &str) -> (inv: Invocation)
    ensures
        inv.program@ == "winget"@,
        string_views(inv.args@) == seq!["list"@, "--id"@, id@],
        invocation_view(inv) == winget_check_view(id@),
{
    let parts: [&str; 3] = ["list", "--id", id];
    let args = owned_args(&parts);
    assert(string_views(args@) =~= seq!["list"@, "--id"@, id@]);
    Invocation { program: "winget".to_owned(), args }
}

/// The silent `winget install` of a package, accepting its agreements.
pub fn winget_install(id: &str) -> (inv: Invocation)
    ensures
        inv.program@ == "winget"@,
        string_views(inv.args@) == seq![
            "install"@,
            "--id"@,
            id@,
            "--silent"@,
            "--accept-package-agreements"@,
            "--accept-source-agreements"@,
        ],
        invocation_view(inv) == winget_install_view(id@),
{
    let parts: [&str; 6] = [
        "install",
        "--id",
        id,
        "--silent",
        "--accept-package-agreements",
        "--accept-source-agreements",
    ];
    let args = owned_args(&parts);
    assert(string_views(args@) =~= seq![
        "install"@,
        "--id"@,
        id@,
        "--silent"@,
        "--accept-package-agreements"@,
        "--accept-source-agreements"@,
    ]);
    Invocation { program: "winget".to_owned(), args }
}

/// `winget list` of everything installed.
pub fn winget_list_all() -> (inv: Invocation)
    ensures
        inv.program@ == "winget"@,
        string_views(inv.args@) == seq!["list"@, "--accept-source-agreements"@],
{
    let parts: [&str; 2] = ["list", "--accept-source-agreements"];
    let args = owned_args(&parts);
    assert(string_views(args@) =~= seq!["list"@, "--accept-source-agreements"@]);
    Invocation { program: "winget".to_owned(), args }
}

/// Upgrades pip through the command interpreter.
pub fn pip_upgrade() -> (inv: Invocation)
    ensures
        inv.program@ == "cmd"@,
        string_views(inv.args@) == seq!["/c"@, "python -m pip install --upgrade pip"@],
        invocation_view(inv) == pip_upgrade_view(),
{
    let parts: [&str; 2] = ["/c", "python -m pip install --upgrade pip"];
    let args = owned_args(&parts);
    assert(string_views(args@) =~= seq!["/c"@, "python -m pip install --upgrade pip"@]);
    Invocation { program: "cmd".to_owned(), args }
}

/// `net session`, which succeeds only with administrator rights.
pub fn admin_probe() -> (inv: Invocation)
    ensures
        inv.program@ == "net"@,
        string_views(inv.args@) == seq!["session"@],
{
    let parts: [&str; 1] = ["session"];
    let args = owned_args(&parts);
    assert(string_views(args@) =~= seq!["session"@]);
    Invocation { program: "net".to_owned(), args }
}

/// Whether the probe of [`admin_probe`] shows administrator rights.
pub fn is_admin(probe: &Result<CommandOutput, String>) -> (b: bool)
    ensures
        b == run_succeeded(*probe),
{
    succeeded(probe)
}

} // verus!
