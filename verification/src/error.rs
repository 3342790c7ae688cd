//! The ways in which a session fails.

use vstd::prelude::*;
use crate::text::{decimal, decimal_text, push_text};

verus! {

/// Why a session, or one of its operations, failed.
///
/// A failure of a call to the engine or to the local terminal carries the
/// underlying cause as text. A failure of a provisioning step carries the
/// exit code of the step's command and the error line found in its output,
/// which is empty where none was found.
#[derive(PartialEq, Eq, Debug)]
pub enum Error {
    Connection(String),
    NotConnected,
    ImageCreate(String),
    ContainerCreate(String),
    ContainerStart(String),
    ExecCreate(String),
    ExecStart(String),
    ExpectedAttached,
    ExpectedDetached,
    TerminalSize(String),
    ExecResize(String),
    ExecInspect(String),
    Rawmode(String),
    StdoutWrite(String),
    StdoutFlush(String),
    ContainerDelete(String),
    GetCWD(String),
    HistoryArchive(String),
    ArchiveUpload(String),
    PackageDNE { package: String, code: i64, detail: String },
    PackageInstall { code: i64, detail: String },
    SystemUpdate { code: i64, detail: String },
    RepositorySetup { code: i64, detail: String },
    FileIndexRefresh { code: i64, detail: String },
    /// A reply that does not answer the request that was pending.
    UnexpectedReply,
}

/// The view of [`Error`]: the same value, with each text as its characters.
pub ghost enum ErrorView {
    Connection(Seq<char>),
    NotConnected,
    ImageCreate(Seq<char>),
    ContainerCreate(Seq<char>),
    ContainerStart(Seq<char>),
    ExecCreate(Seq<char>),
    ExecStart(Seq<char>),
    ExpectedAttached,
    ExpectedDetached,
    TerminalSize(Seq<char>),
    ExecResize(Seq<char>),
    ExecInspect(Seq<char>),
    Rawmode(Seq<char>),
    StdoutWrite(Seq<char>),
    StdoutFlush(Seq<char>),
    ContainerDelete(Seq<char>),
    GetCWD(Seq<char>),
    HistoryArchive(Seq<char>),
    ArchiveUpload(Seq<char>),
    PackageDNE { package: Seq<char>, code: i64, detail: Seq<char> },
    PackageInstall { code: i64, detail: Seq<char> },
    SystemUpdate { code: i64, detail: Seq<char> },
    RepositorySetup { code: i64, detail: Seq<char> },
    FileIndexRefresh { code: i64, detail: Seq<char> },
    UnexpectedReply,
}

impl View for Error {
    type V = ErrorView;

    open spec fn view(&self) -> ErrorView {
        match *self {
            Error::Connection(c) => ErrorView::Connection(c@),
            Error::NotConnected => ErrorView::NotConnected,
            Error::ImageCreate(c) => ErrorView::ImageCreate(c@),
            Error::ContainerCreate(c) => ErrorView::ContainerCreate(c@),
            Error::ContainerStart(c) => ErrorView::ContainerStart(c@),
            Error::ExecCreate(c) => ErrorView::ExecCreate(c@),
            Error::ExecStart(c) => ErrorView::ExecStart(c@),
            Error::ExpectedAttached => ErrorView::ExpectedAttached,
            Error::ExpectedDetached => ErrorView::ExpectedDetached,
            Error::TerminalSize(c) => ErrorView::TerminalSize(c@),
            Error::ExecResize(c) => ErrorView::ExecResize(c@),
            Error::ExecInspect(c) => ErrorView::ExecInspect(c@),
            Error::Rawmode(c) => ErrorView::Rawmode(c@),
            Error::StdoutWrite(c) => ErrorView::StdoutWrite(c@),
            Error::StdoutFlush(c) => ErrorView::StdoutFlush(c@),
            Error::ContainerDelete(c) => ErrorView::ContainerDelete(c@),
            Error::GetCWD(c) => ErrorView::GetCWD(c@),
            Error::HistoryArchive(c) => ErrorView::HistoryArchive(c@),
            Error::ArchiveUpload(c) => ErrorView::ArchiveUpload(c@),
            Error::PackageDNE { package, code, detail } => ErrorView::PackageDNE {
                package: package@,
                code,
                detail: detail@,
            },
            Error::PackageInstall { code, detail } => ErrorView::PackageInstall {
                code,
                detail: detail@,
            },
            Error::SystemUpdate { code, detail } => ErrorView::SystemUpdate { code, detail: detail@ },
            Error::RepositorySetup { code, detail } => ErrorView::RepositorySetup {
                code,
                detail: detail@,
            },
            Error::FileIndexRefresh { code, detail } => ErrorView::FileIndexRefresh {
                code,
                detail: detail@,
            },
            Error::UnexpectedReply => ErrorView::UnexpectedReply,
        }
    }
}

/// The text of a failure, for the user.
pub open spec fn message_text(e: ErrorView) -> Seq<char> {
    match e {
        ErrorView::Connection(c) => "could not connect to docker: "@ + c,
        ErrorView::NotConnected => "inner error: docker not connected"@,
        ErrorView::ImageCreate(c) => "could not create image: "@ + c,
        ErrorView::ContainerCreate(c) => "could not create container: "@ + c,
        ErrorView::ContainerStart(c) => "could not start container: "@ + c,
        ErrorView::ExecCreate(c) => "could not create exec: "@ + c,
        ErrorView::ExecStart(c) => "could not start exec: "@ + c,
        ErrorView::ExpectedAttached => "exec was expected to be attached"@,
        ErrorView::ExpectedDetached => "exec was expected to be detached"@,
        ErrorView::TerminalSize(c) => "could not recv terminal size: "@ + c,
        ErrorView::ExecResize(c) => "could not resize exec: "@ + c,
        ErrorView::ExecInspect(c) => "could not inspect exec: "@ + c,
        ErrorView::Rawmode(c) => "could not set raw mode: "@ + c,
        ErrorView::StdoutWrite(c) => "could not write to stdout: "@ + c,
        ErrorView::StdoutFlush(c) => "could flush stdout: "@ + c,
        ErrorView::ContainerDelete(c) => "could not delete container: "@ + c,
        ErrorView::GetCWD(c) => "could not get cwd: "@ + c,
        ErrorView::HistoryArchive(c) => "could not prepare history archive: "@ + c,
        ErrorView::ArchiveUpload(c) => "could not upload archive: "@ + c,
        ErrorView::PackageDNE { package, .. } => "package does not exist: "@ + package,
        ErrorView::PackageInstall { code, .. } => "failed to install package: "@ + decimal(
            code as int,
        ),
        ErrorView::SystemUpdate { code, .. } => "failed to update system: "@ + decimal(code as int),
        ErrorView::RepositorySetup { code, .. } => "failed to set up repository: "@ + decimal(
            code as int,
        ),
        ErrorView::FileIndexRefresh { code, .. } => "failed to refresh file index: "@ + decimal(
            code as int,
        ),
        ErrorView::UnexpectedReply => "inner error: unexpected reply"@,
    }
}

fn plain(head: &str) -> (s: String)
    ensures
        s@ == head@,
{
    let mut s = String::new();
    push_text(&mut s, head);
    assert(s@ =~= head@);
    s
}

fn with_cause(head: &str, cause: &str) -> (s: String)
    ensures
        s@ == head@ + cause@,
{
    let mut s = String::new();
    push_text(&mut s, head);
    push_text(&mut s, cause);
    assert(s@ =~= head@ + cause@);
    s
}

fn with_code(head: &str, code: i64) -> (s: String)
    ensures
        s@ == head@ + decimal(code as int),
{
    let mut s = String::new();
    push_text(&mut s, head);
    push_text(&mut s, decimal_text(code).as_str());
    assert(s@ =~= head@ + decimal(code as int));
    s
}

impl Error {
    /// The text of this failure, for the user.
    pub fn message(&self) -> (s: String)
        ensures
            s@ == message_text(self@),
    {
        match self {
            Error::Connection(c) => with_cause("could not connect to docker: ", c.as_str()),
            Error::NotConnected => plain("inner error: docker not connected"),
            Error::ImageCreate(c) => with_cause("could not create image: ", c.as_str()),
            Error::ContainerCreate(c) => with_cause("could not create container: ", c.as_str()),
            Error::ContainerStart(c) => with_cause("could not start container: ", c.as_str()),
            Error::ExecCreate(c) => with_cause("could not create exec: ", c.as_str()),
            Error::ExecStart(c) => with_cause("could not start exec: ", c.as_str()),
            Error::ExpectedAttached => plain("exec was expected to be attached"),
            Error::ExpectedDetached => plain("exec was expected to be detached"),
            Error::TerminalSize(c) => with_cause("could not recv terminal size: ", c.as_str()),
            Error::ExecResize(c) => with_cause("could not resize exec: ", c.as_str()),
            Error::ExecInspect(c) => with_cause("could not inspect exec: ", c.as_str()),
            Error::Rawmode(c) => with_cause("could not set raw mode: ", c.as_str()),
            Error::StdoutWrite(c) => with_cause("could not write to stdout: ", c.as_str()),
            Error::StdoutFlush(c) => with_cause("could flush stdout: ", c.as_str()),
            Error::ContainerDelete(c) => with_cause("could not delete container: ", c.as_str()),
            Error::GetCWD(c) => with_cause("could not get cwd: ", c.as_str()),
            Error::HistoryArchive(c) => with_cause(
                "could not prepare history archive: ",
                c.as_str(),
            ),
            Error::ArchiveUpload(c) => with_cause("could not upload archive: ", c.as_str()),
            Error::PackageDNE { package, .. } => with_cause(
                "package does not exist: ",
                package.as_str(),
            ),
            Error::PackageInstall { code, .. } => with_code("failed to install package: ", *code),
            Error::SystemUpdate { code, .. } => with_code("failed to update system: ", *code),
            Error::RepositorySetup { code, .. } => with_code("failed to set up repository: ", *code),
            Error::FileIndexRefresh { code, .. } => with_code(
                "failed to refresh file index: ",
                *code,
            ),
            Error::UnexpectedReply => plain("inner error: unexpected reply"),
        }
    }

}

impl Clone for Error {
    fn clone(&self) -> (copy: Error)
        ensures
            copy@ == self@,
    {
        match self {
            Error::Connection(c) => Error::Connection(c.clone()),
            Error::NotConnected => Error::NotConnected,
            Error::ImageCreate(c) => Error::ImageCreate(c.clone()),
            Error::ContainerCreate(c) => Error::ContainerCreate(c.clone()),
            Error::ContainerStart(c) => Error::ContainerStart(c.clone()),
            Error::ExecCreate(c) => Error::ExecCreate(c.clone()),
            Error::ExecStart(c) => Error::ExecStart(c.clone()),
            Error::ExpectedAttached => Error::ExpectedAttached,
            Error::ExpectedDetached => Error::ExpectedDetached,
            Error::TerminalSize(c) => Error::TerminalSize(c.clone()),
            Error::ExecResize(c) => Error::ExecResize(c.clone()),
            Error::ExecInspect(c) => Error::ExecInspect(c.clone()),
            Error::Rawmode(c) => Error::Rawmode(c.clone()),
            Error::StdoutWrite(c) => Error::StdoutWrite(c.clone()),
            Error::StdoutFlush(c) => Error::StdoutFlush(c.clone()),
            Error::ContainerDelete(c) => Error::ContainerDelete(c.clone()),
            Error::GetCWD(c) => Error::GetCWD(c.clone()),
            Error::HistoryArchive(c) => Error::HistoryArchive(c.clone()),
            Error::ArchiveUpload(c) => Error::ArchiveUpload(c.clone()),
            Error::PackageDNE { package, code, detail } => Error::PackageDNE {
                package: package.clone(),
                code: *code,
                detail: detail.clone(),
            },
            Error::PackageInstall { code, detail } => Error::PackageInstall {
                code: *code,
                detail: detail.clone(),
            },
            Error::SystemUpdate { code, detail } => Error::SystemUpdate {
                code: *code,
                detail: detail.clone(),
            },
            Error::RepositorySetup { code, detail } => Error::RepositorySetup {
                code: *code,
                detail: detail.clone(),
            },
            Error::FileIndexRefresh { code, detail } => Error::FileIndexRefresh {
                code: *code,
                detail: detail.clone(),
            },
            Error::UnexpectedReply => Error::UnexpectedReply,
        }
    }
}

} // verus!
