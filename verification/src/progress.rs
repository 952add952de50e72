//! The progress reports that the user interface shows for each request.
use vstd::prelude::*;

verus! {

/// The state a report announces.
#[derive(Clone, Copy, Debug, PartialEq, Eq, Structural)]
pub enum Status {
    Installing,
    Done,
    Error,
    Skipped,
}

/// The word by which the user interface knows a status.
pub open spec fn status_text(s: Status) -> Seq<char> {
    match s {
        Status::Installing => "installing"@,
        Status::Done => "done"@,
        Status::Error => "error"@,
        Status::Skipped => "skipped"@,
    }
}

impl Status {
    /// The word by which the user interface knows this status.
    pub fn as_str(&self) -> (s: &'static str)
        ensures
            s@ == status_text(*self),
    {
        match self {
            Status::Installing => "installing",
            Status::Done => "done",
            Status::Error => "error",
            Status::Skipped => "skipped",
        }
    }
}

/// One progress report about one request.
pub struct InstallProgress {
    pub app_id: String,
    pub app_name: String,
    pub status: Status,
    pub message: String,
}

/// `p` reports `status` and `message` about the request `id` named `name`.
pub open spec fn reports(
    p: InstallProgress,
    id: Seq<char>,
    name: Seq<char>,
    status: Status,
    message: Seq<char>,
) -> bool {
    &&& p.app_id@ == id
    &&& p.app_name@ == name
    &&& p.status == status
    &&& p.message@ == message
}

impl InstallProgress {
    /// A report about the request `id` named `name`.
    pub fn new(id: &str, name: &str, status: Status, message: String) -> (p: InstallProgress)
        ensures
            reports(p, id@, name@, status, message@),
    {
        InstallProgress { app_id: id.to_owned(), app_name: name.to_owned(), status, message }
    }
}

} // verus!
