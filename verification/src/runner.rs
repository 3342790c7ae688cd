//! Running one command inside the container.
//!
//! A run is a state machine. The caller performs each action that the
//! machine asks for (a call to the engine, or to the local terminal) and
//! hands back what came of it as a reply; the machine answers with the next
//! action, until the run is finished or has failed.
//!
//! There are three ways to run a command. Attached: a pseudo-terminal is
//! allocated, local input is forwarded to the command, the local terminal
//! is sized into the command's once, and every chunk of output is written to
//! local standard output in raw mode, as it comes. Buffered: no terminal;
//! the output is gathered and handed back with the exit code. Detached:
//! nothing is read; the run waits until the engine says that the command no
//! longer runs. In each, the exit code is asked for at the end, and a
//! missing one counts as zero.

use vstd::prelude::*;
use crate::error::{Error, ErrorView};

verus! {

/// How a command is run.
#[derive(Clone, Copy, PartialEq, Eq, Structural, Debug)]
pub enum ExecMode {
    Attached,
    Buffered,
    Detached,
}

/// Where a run stands: the request whose reply it waits for.
#[derive(Clone, Copy, PartialEq, Eq, Structural, Debug)]
pub enum ExecPhase {
    Creating,
    Starting,
    Forwarding,
    Sizing,
    Resizing,
    EnteringRaw,
    Reading,
    Writing,
    Flushing,
    LeavingRaw,
    Polling,
    Sleeping,
    Inspecting,
    Finished,
}

/// A command to run in the container.
#[derive(PartialEq, Eq, Debug)]
pub struct ExecRequest {
    pub command: String,
    pub mode: ExecMode,
    /// Whether the command runs as the privileged user of the container.
    pub privileged: bool,
}

/// What a finished run hands back.
#[derive(PartialEq, Eq, Debug)]
pub struct ExecResult {
    pub exit_code: i64,
    /// The gathered output of a buffered run; empty otherwise.
    pub output: Vec<u8>,
}

/// What the caller is to do next.
#[derive(PartialEq, Eq, Debug)]
pub enum ExecAction {
    /// Create the exec in the container.
    Create(ExecRequest),
    /// Start the exec, detached or attached, with or without a terminal.
    Start { id: String, detach: bool, tty: bool },
    /// Begin to forward local input to the command, beside all that
    /// follows.
    ForwardInput,
    /// Ask the local terminal for its size.
    QuerySize,
    /// Resize the exec's terminal.
    Resize { id: String, rows: u16, cols: u16 },
    /// Put local standard output into raw mode.
    EnterRawMode,
    /// Wait for the next chunk of output.
    Read,
    /// Write the chunk to local standard output.
    Write(Vec<u8>),
    /// Flush local standard output.
    Flush,
    /// Take local standard output out of raw mode.
    LeaveRawMode,
    /// Ask the engine for the state of the exec.
    Inspect { id: String },
    /// Wait for this many milliseconds.
    Sleep { millis: u64 },
    /// The run is over, with this result.
    Finished(ExecResult),
    /// The run is over, with this failure.
    Failed(Error),
}

/// What came of the action that was asked for.
#[derive(PartialEq, Eq, Debug)]
pub enum ExecReply {
    /// The exec was created, with this id.
    Created(String),
    /// The exec was started; the engine handed back its streams, or nothing.
    Started { attached: bool },
    /// The size of the local terminal.
    Size { cols: u16, rows: u16 },
    /// The next chunk of output.
    Chunk(Vec<u8>),
    /// The output has ended.
    End,
    /// The state of the exec, as far as the engine tells it.
    Inspected { exit_code: Option<i64>, running: Option<bool> },
    /// The action is done and has nothing to report.
    Done,
    /// The action failed, for this cause.
    Failed(String),
}

/// One run of a command.
#[derive(Debug)]
pub struct ExecRun {
    mode: ExecMode,
    phase: ExecPhase,
    id: String,
    output: Vec<u8>,
    pending: Option<Error>,
}

/// The view of [`ExecRequest`]: the same value, with each text as its characters.
pub ghost struct RequestView {
    pub command: Seq<char>,
    pub mode: ExecMode,
    pub privileged: bool,
}

/// The view of [`ExecResult`]: the same value, with each text as its characters.
pub ghost struct ResultView {
    pub exit_code: i64,
    pub output: Seq<u8>,
}

/// The view of [`ExecAction`]: the same value, with each text as its characters.
pub ghost enum ActionView {
    Create(RequestView),
    Start { id: Seq<char>, detach: bool, tty: bool },
    ForwardInput,
    QuerySize,
    Resize { id: Seq<char>, rows: u16, cols: u16 },
    EnterRawMode,
    Read,
    Write(Seq<u8>),
    Flush,
    LeaveRawMode,
    Inspect { id: Seq<char> },
    Sleep { millis: u64 },
    Finished(ResultView),
    Failed(ErrorView),
}

/// The view of [`ExecReply`]: the same value, with each text as its characters.
pub ghost enum ReplyView {
    Created(Seq<char>),
    Started { attached: bool },
    Size { cols: u16, rows: u16 },
    Chunk(Seq<u8>),
    End,
    Inspected { exit_code: Option<i64>, running: Option<bool> },
    Done,
    Failed(Seq<char>),
}

/// The state of a [`ExecRun`], as the contracts speak of it.
pub ghost struct RunView {
    pub mode: ExecMode,
    pub phase: ExecPhase,
    pub id: Seq<char>,
    pub output: Seq<u8>,
    pub pending: Option<ErrorView>,
}

impl View for ExecRequest {
    type V = RequestView;

    open spec fn view(&self) -> RequestView {
        RequestView { command: self.command@, mode: self.mode, privileged: self.privileged }
    }
}

impl View for ExecResult {
    type V = ResultView;

    open spec fn view(&self) -> ResultView {
        ResultView { exit_code: self.exit_code, output: self.output@ }
    }
}

impl View for ExecAction {
    type V = ActionView;

    open spec fn view(&self) -> ActionView {
        match *self {
            ExecAction::Create(request) => ActionView::Create(request@),
            ExecAction::Start { id, detach, tty } => ActionView::Start { id: id@, detach, tty },
            ExecAction::ForwardInput => ActionView::ForwardInput,
            ExecAction::QuerySize => ActionView::QuerySize,
            ExecAction::Resize { id, rows, cols } => ActionView::Resize { id: id@, rows, cols },
            ExecAction::EnterRawMode => ActionView::EnterRawMode,
            ExecAction::Read => ActionView::Read,
            ExecAction::Write(bytes) => ActionView::Write(bytes@),
            ExecAction::Flush => ActionView::Flush,
            ExecAction::LeaveRawMode => ActionView::LeaveRawMode,
            ExecAction::Inspect { id } => ActionView::Inspect { id: id@ },
            ExecAction::Sleep { millis } => ActionView::Sleep { millis },
            ExecAction::Finished(result) => ActionView::Finished(result@),
            ExecAction::Failed(error) => ActionView::Failed(error@),
        }
    }
}

impl View for ExecReply {
    type V = ReplyView;

    open spec fn view(&self) -> ReplyView {
        match *self {
            ExecReply::Created(id) => ReplyView::Created(id@),
            ExecReply::Started { attached } => ReplyView::Started { attached },
            ExecReply::Size { cols, rows } => ReplyView::Size { cols, rows },
            ExecReply::Chunk(bytes) => ReplyView::Chunk(bytes@),
            ExecReply::End => ReplyView::End,
            ExecReply::Inspected { exit_code, running } => ReplyView::Inspected {
                exit_code,
                running,
            },
            ExecReply::Done => ReplyView::Done,
            ExecReply::Failed(cause) => ReplyView::Failed(cause@),
        }
    }
}

impl View for ExecRun {
    type V = RunView;

    closed spec fn view(&self) -> RunView {
        RunView {
            mode: self.mode,
            phase: self.phase,
            id: self.id@,
            output: self.output@,
            pending: match self.pending {
                Some(e) => Some(e@),
                None => None,
            },
        }
    }
}

/// The shell that runs every command.
pub open spec fn shell() -> Seq<char> {
    "/usr/bin/zsh"@
}

/// The user of the container that runs a command.
pub open spec fn user_name(privileged: bool) -> Seq<char> {
    if privileged {
        "root"@
    } else {
        "tempsystem"@
    }
}

/// How long a detached run waits between two looks at the exec, in
/// milliseconds.
pub open spec fn poll_interval() -> u64 {
    300
}

impl Clone for ExecRequest {
    fn clone(&self) -> (copy: ExecRequest)
        ensures
            copy@ == self@,
    {
        ExecRequest {
            command: self.command.clone(),
            mode: self.mode,
            privileged: self.privileged,
        }
    }
}

impl ExecRequest {
    /// The argument vector of the exec: the shell, `-c`, and the command as
    /// one argument.
    pub fn argv(&self) -> (v: Vec<String>)
        ensures
            v@.len() == 3,
            v@[0]@ == shell(),
            v@[1]@ == "-c"@,
            v@[2]@ == self.command@,
    {
        let mut v: Vec<String> = Vec::new();
        v.push("/usr/bin/zsh".to_string());
        v.push("-c".to_string());
        v.push(self.command.clone());
        v
    }

    /// The user that runs the command.
    pub fn user(&self) -> (u: String)
        ensures
            u@ == user_name(self.privileged),
    {
        if self.privileged {
            "root".to_string()
        } else {
            "tempsystem".to_string()
        }
    }

    /// Whether a pseudo-terminal is allocated: for an attached run only.
    pub fn tty(&self) -> (r: bool)
        ensures
            r == (self.mode == ExecMode::Attached),
    {
        match self.mode {
            ExecMode::Attached => true,
            _ => false,
        }
    }

    /// Whether local input is connected: for an attached run only.
    pub fn attach_stdin(&self) -> (r: bool)
        ensures
            r == (self.mode == ExecMode::Attached),
    {
        self.tty()
    }

    /// Whether the output streams are connected: unless the run is detached.
    pub fn attach_output(&self) -> (r: bool)
        ensures
            r == (self.mode != ExecMode::Detached),
    {
        match self.mode {
            ExecMode::Detached => false,
            _ => true,
        }
    }
}

/// The run at its beginning, for this way of running.
pub open spec fn initial(mode: ExecMode) -> RunView {
    RunView {
        mode,
        phase: ExecPhase::Creating,
        id: Seq::empty(),
        output: Seq::empty(),
        pending: None,
    }
}

/// The run ends with a failure.
pub open spec fn fail(s: RunView, e: ErrorView) -> (RunView, ActionView) {
    (RunView { phase: ExecPhase::Finished, ..s }, ActionView::Failed(e))
}

/// The run leaves raw mode, and reports the failure after that.
pub open spec fn bail(s: RunView, e: ErrorView) -> (RunView, ActionView) {
    (
        RunView { phase: ExecPhase::LeavingRaw, pending: Some(e), ..s },
        ActionView::LeaveRawMode,
    )
}

/// The run goes on to this phase with this action.
pub open spec fn go(s: RunView, phase: ExecPhase, action: ActionView) -> (RunView, ActionView) {
    (RunView { phase, ..s }, action)
}

/// The run asks for the state of the exec.
pub open spec fn inspect(s: RunView, phase: ExecPhase) -> (RunView, ActionView) {
    go(s, phase, ActionView::Inspect { id: s.id })
}

/// What the run does when the exec was started.
pub open spec fn started(s: RunView, attached: bool) -> (RunView, ActionView) {
    match s.mode {
        ExecMode::Attached => if attached {
            go(s, ExecPhase::Forwarding, ActionView::ForwardInput)
        } else {
            fail(s, ErrorView::ExpectedAttached)
        },
        ExecMode::Buffered => if attached {
            go(s, ExecPhase::Reading, ActionView::Read)
        } else {
            fail(s, ErrorView::ExpectedAttached)
        },
        ExecMode::Detached => if attached {
            fail(s, ErrorView::ExpectedDetached)
        } else {
            inspect(s, ExecPhase::Polling)
        },
    }
}

/// What the run does with the answer to a read. Output that breaks off
/// counts as output that has ended.
pub open spec fn read(s: RunView, r: ReplyView) -> (RunView, ActionView) {
    if s.mode == ExecMode::Attached {
        match r {
            ReplyView::Chunk(bytes) => go(s, ExecPhase::Writing, ActionView::Write(bytes)),
            ReplyView::End => go(s, ExecPhase::LeavingRaw, ActionView::LeaveRawMode),
            ReplyView::Failed(_) => go(s, ExecPhase::LeavingRaw, ActionView::LeaveRawMode),
            _ => bail(s, ErrorView::UnexpectedReply),
        }
    } else {
        match r {
            ReplyView::Chunk(bytes) => (
                RunView { output: s.output + bytes, ..s },
                ActionView::Read,
            ),
            ReplyView::End => inspect(s, ExecPhase::Inspecting),
            ReplyView::Failed(_) => inspect(s, ExecPhase::Inspecting),
            _ => fail(s, ErrorView::UnexpectedReply),
        }
    }
}

/// What the run does when raw mode was left, or could not be left.
pub open spec fn left_raw(s: RunView, r: ReplyView) -> (RunView, ActionView) {
    match s.pending {
        Some(e) => fail(s, e),
        None => match r {
            ReplyView::Done => inspect(s, ExecPhase::Inspecting),
            ReplyView::Failed(cause) => fail(s, ErrorView::Rawmode(cause)),
            _ => fail(s, ErrorView::UnexpectedReply),
        },
    }
}

/// One step of a run: the state and the reply give the next state and the
/// next action.
pub open spec fn step(s: RunView, r: ReplyView) -> (RunView, ActionView) {
    match s.phase {
        ExecPhase::Creating => match r {
            ReplyView::Created(id) => (
                RunView { phase: ExecPhase::Starting, id, ..s },
                ActionView::Start {
                    id,
                    detach: s.mode == ExecMode::Detached,
                    tty: s.mode == ExecMode::Attached,
                },
            ),
            ReplyView::Failed(cause) => fail(s, ErrorView::ExecCreate(cause)),
            _ => fail(s, ErrorView::UnexpectedReply),
        },
        ExecPhase::Starting => match r {
            ReplyView::Started { attached } => started(s, attached),
            ReplyView::Failed(cause) => fail(s, ErrorView::ExecStart(cause)),
            _ => fail(s, ErrorView::UnexpectedReply),
        },
        ExecPhase::Forwarding => match r {
            ReplyView::Done => go(s, ExecPhase::Sizing, ActionView::QuerySize),
            _ => fail(s, ErrorView::UnexpectedReply),
        },
        ExecPhase::Sizing => match r {
            ReplyView::Size { cols, rows } => go(
                s,
                ExecPhase::Resizing,
                ActionView::Resize { id: s.id, rows, cols },
            ),
            ReplyView::Failed(cause) => fail(s, ErrorView::TerminalSize(cause)),
            _ => fail(s, ErrorView::UnexpectedReply),
        },
        ExecPhase::Resizing => match r {
            ReplyView::Done => go(s, ExecPhase::EnteringRaw, ActionView::EnterRawMode),
            ReplyView::Failed(cause) => fail(s, ErrorView::ExecResize(cause)),
            _ => fail(s, ErrorView::UnexpectedReply),
        },
        ExecPhase::EnteringRaw => match r {
            ReplyView::Done => go(s, ExecPhase::Reading, ActionView::Read),
            ReplyView::Failed(cause) => fail(s, ErrorView::Rawmode(cause)),
            _ => fail(s, ErrorView::UnexpectedReply),
        },
        ExecPhase::Reading => read(s, r),
        ExecPhase::Writing => match r {
            ReplyView::Done => go(s, ExecPhase::Flushing, ActionView::Flush),
            ReplyView::Failed(cause) => bail(s, ErrorView::StdoutWrite(cause)),
            _ => bail(s, ErrorView::UnexpectedReply),
        },
        ExecPhase::Flushing => match r {
            ReplyView::Done => go(s, ExecPhase::Reading, ActionView::Read),
            ReplyView::Failed(cause) => bail(s, ErrorView::StdoutFlush(cause)),
            _ => bail(s, ErrorView::UnexpectedReply),
        },
        ExecPhase::LeavingRaw => left_raw(s, r),
        ExecPhase::Polling => match r {
            ReplyView::Inspected { exit_code, running } => match running {
                Some(true) => go(
                    s,
                    ExecPhase::Sleeping,
                    ActionView::Sleep { millis: poll_interval() },
                ),
                Some(false) => inspect(s, ExecPhase::Inspecting),
                None => fail(s, ErrorView::UnexpectedReply),
            },
            ReplyView::Failed(cause) => fail(s, ErrorView::ExecInspect(cause)),
            _ => fail(s, ErrorView::UnexpectedReply),
        },
        ExecPhase::Sleeping => match r {
            ReplyView::Done => inspect(s, ExecPhase::Polling),
            _ => fail(s, ErrorView::UnexpectedReply),
        },
        ExecPhase::Inspecting => match r {
            ReplyView::Inspected { exit_code, running } => (
                RunView { phase: ExecPhase::Finished, ..s },
                ActionView::Finished(
                    ResultView {
                        exit_code: match exit_code {
                            Some(code) => code,
                            None => 0,
                        },
                        output: s.output,
                    },
                ),
            ),
            ReplyView::Failed(cause) => fail(s, ErrorView::ExecInspect(cause)),
            _ => fail(s, ErrorView::UnexpectedReply),
        },
        ExecPhase::Finished => fail(s, ErrorView::UnexpectedReply),
    }
}

impl ExecRun {
    /// Begins a run: the first action is to create the exec.
    pub fn begin(request: ExecRequest) -> (r: (ExecRun, ExecAction))
        ensures
            r.0@ == initial(request.mode),
            r.1@ == ActionView::Create(request@),
            consistent(r.0@),
    {
        let run = ExecRun {
            mode: request.mode,
            phase: ExecPhase::Creating,
            id: String::new(),
            output: Vec::new(),
            pending: None,
        };
        (run, ExecAction::Create(request))
    }

    /// Where the run stands.
    pub fn phase(&self) -> (p: ExecPhase)
        ensures
            p == self@.phase,
    {
        self.phase
    }

    /// How the command is run.
    pub fn mode(&self) -> (m: ExecMode)
        ensures
            m == self@.mode,
    {
        self.mode
    }

    /// Whether the run is over.
    pub fn is_finished(&self) -> (r: bool)
        ensures
            r == (self@.phase == ExecPhase::Finished),
    {
        match self.phase {
            ExecPhase::Finished => true,
            _ => false,
        }
    }

    fn fail(&mut self, error: Error) -> (action: ExecAction)
        ensures
            (final(self)@, action@) == fail(old(self)@, error@),
    {
        self.phase = ExecPhase::Finished;
        ExecAction::Failed(error)
    }

    fn bail(&mut self, error: Error) -> (action: ExecAction)
        ensures
            (final(self)@, action@) == bail(old(self)@, error@),
    {
        self.phase = ExecPhase::LeavingRaw;
        self.pending = Some(error);
        ExecAction::LeaveRawMode
    }

    fn go(&mut self, phase: ExecPhase, action: ExecAction) -> (r: ExecAction)
        ensures
            (final(self)@, r@) == go(old(self)@, phase, action@),
    {
        self.phase = phase;
        action
    }

    fn inspect(&mut self, phase: ExecPhase) -> (action: ExecAction)
        ensures
            (final(self)@, action@) == inspect(old(self)@, phase),
    {
        self.phase = phase;
        ExecAction::Inspect { id: self.id.clone() }
    }

    fn started(&mut self, attached: bool) -> (action: ExecAction)
        ensures
            (final(self)@, action@) == started(old(self)@, attached),
    {
        match self.mode {
            ExecMode::Attached => if attached {
                self.go(ExecPhase::Forwarding, ExecAction::ForwardInput)
            } else {
                self.fail(Error::ExpectedAttached)
            },
            ExecMode::Buffered => if attached {
                self.go(ExecPhase::Reading, ExecAction::Read)
            } else {
                self.fail(Error::ExpectedAttached)
            },
            ExecMode::Detached => if attached {
                self.fail(Error::ExpectedDetached)
            } else {
                self.inspect(ExecPhase::Polling)
            },
        }
    }

    fn read(&mut self, reply: ExecReply) -> (action: ExecAction)
        ensures
            (final(self)@, action@) == read(old(self)@, reply@),
    {
        match self.mode {
            ExecMode::Attached => match reply {
                ExecReply::Chunk(bytes) => self.go(ExecPhase::Writing, ExecAction::Write(bytes)),
                ExecReply::End => self.go(ExecPhase::LeavingRaw, ExecAction::LeaveRawMode),
                ExecReply::Failed(_) => self.go(ExecPhase::LeavingRaw, ExecAction::LeaveRawMode),
                _ => self.bail(Error::UnexpectedReply),
            },
            _ => match reply {
                ExecReply::Chunk(bytes) => {
                    let mut bytes = bytes;
                    self.output.append(&mut bytes);
                    ExecAction::Read
                },
                ExecReply::End => self.inspect(ExecPhase::Inspecting),
                ExecReply::Failed(_) => self.inspect(ExecPhase::Inspecting),
                _ => self.fail(Error::UnexpectedReply),
            },
        }
    }

    fn left_raw(&mut self, reply: ExecReply) -> (action: ExecAction)
        ensures
            (final(self)@, action@) == left_raw(old(self)@, reply@),
    {
        match &self.pending {
            Some(e) => {
                let error = e.clone();
                self.fail(error)
            },
            None => match reply {
                ExecReply::Done => self.inspect(ExecPhase::Inspecting),
                ExecReply::Failed(cause) => self.fail(Error::Rawmode(cause)),
                _ => self.fail(Error::UnexpectedReply),
            },
        }
    }

    /// Takes the reply to the action that was asked for last, and says what
    /// to do next.
    pub fn advance(&mut self, reply: ExecReply) -> (action: ExecAction)
        ensures
            (final(self)@, action@) == step(old(self)@, reply@),
            consistent(old(self)@) ==> consistent(final(self)@),
    {
        proof {
            if consistent(self@) {
                lemma_step_keeps_consistent(self@, reply@);
            }
        }
        match self.phase {
            ExecPhase::Creating => match reply {
                ExecReply::Created(id) => {
                    self.phase = ExecPhase::Starting;
                    self.id = id.clone();
                    ExecAction::Start {
                        id,
                        detach: match self.mode {
                            ExecMode::Detached => true,
                            _ => false,
                        },
                        tty: match self.mode {
                            ExecMode::Attached => true,
                            _ => false,
                        },
                    }
                },
                ExecReply::Failed(cause) => self.fail(Error::ExecCreate(cause)),
                _ => self.fail(Error::UnexpectedReply),
            },
            ExecPhase::Starting => match reply {
                ExecReply::Started { attached } => self.started(attached),
                ExecReply::Failed(cause) => self.fail(Error::ExecStart(cause)),
                _ => self.fail(Error::UnexpectedReply),
            },
            ExecPhase::Forwarding => match reply {
                ExecReply::Done => self.go(ExecPhase::Sizing, ExecAction::QuerySize),
                _ => self.fail(Error::UnexpectedReply),
            },
            ExecPhase::Sizing => match reply {
                ExecReply::Size { cols, rows } => {
                    let id = self.id.clone();
                    self.go(ExecPhase::Resizing, ExecAction::Resize { id, rows, cols })
                },
                ExecReply::Failed(cause) => self.fail(Error::TerminalSize(cause)),
                _ => self.fail(Error::UnexpectedReply),
            },
            ExecPhase::Resizing => match reply {
                ExecReply::Done => self.go(ExecPhase::EnteringRaw, ExecAction::EnterRawMode),
                ExecReply::Failed(cause) => self.fail(Error::ExecResize(cause)),
                _ => self.fail(Error::UnexpectedReply),
            },
            ExecPhase::EnteringRaw => match reply {
                ExecReply::Done => self.go(ExecPhase::Reading, ExecAction::Read),
                ExecReply::Failed(cause) => self.fail(Error::Rawmode(cause)),
                _ => self.fail(Error::UnexpectedReply),
            },
            ExecPhase::Reading => self.read(reply),
            ExecPhase::Writing => match reply {
                ExecReply::Done => self.go(ExecPhase::Flushing, ExecAction::Flush),
                ExecReply::Failed(cause) => self.bail(Error::StdoutWrite(cause)),
                _ => self.bail(Error::UnexpectedReply),
            },
            ExecPhase::Flushing => match reply {
                ExecReply::Done => self.go(ExecPhase::Reading, ExecAction::Read),
                ExecReply::Failed(cause) => self.bail(Error::StdoutFlush(cause)),
                _ => self.bail(Error::UnexpectedReply),
            },
            ExecPhase::LeavingRaw => self.left_raw(reply),
            ExecPhase::Polling => match reply {
                ExecReply::Inspected { exit_code, running } => match running {
                    Some(true) => self.go(ExecPhase::Sleeping, ExecAction::Sleep { millis: 300 }),
                    Some(false) => self.inspect(ExecPhase::Inspecting),
                    None => self.fail(Error::UnexpectedReply),
                },
                ExecReply::Failed(cause) => self.fail(Error::ExecInspect(cause)),
                _ => self.fail(Error::UnexpectedReply),
            },
            ExecPhase::Sleeping => match reply {
                ExecReply::Done => self.inspect(ExecPhase::Polling),
                _ => self.fail(Error::UnexpectedReply),
            },
            ExecPhase::Inspecting => match reply {
                ExecReply::Inspected { exit_code, running } => {
                    self.phase = ExecPhase::Finished;
                    let output = self.output.clone();
                    ExecAction::Finished(
                        ExecResult {
                            exit_code: match exit_code {
                                Some(code) => code,
                                None => 0,
                            },
                            output,
                        },
                    )
                },
                ExecReply::Failed(cause) => self.fail(Error::ExecInspect(cause)),
                _ => self.fail(Error::UnexpectedReply),
            },
            ExecPhase::Finished => self.fail(Error::UnexpectedReply),
        }
    }
}

/// The state of a run after these replies.
pub open spec fn state_after(mode: ExecMode, replies: Seq<ReplyView>) -> RunView
    decreases replies.len(),
{
    if replies.len() == 0 {
        initial(mode)
    } else {
        step(state_after(mode, replies.drop_last()), replies.last()).0
    }
}

/// The actions that a run has asked for after these replies, the first
/// action included.
pub open spec fn actions_after(request: RequestView, replies: Seq<ReplyView>) -> Seq<ActionView>
    decreases replies.len(),
{
    if replies.len() == 0 {
        seq![ActionView::Create(request)]
    } else {
        actions_after(request, replies.drop_last()).push(
            step(state_after(request.mode, replies.drop_last()), replies.last()).1,
        )
    }
}

/// Whether, among the first `upto` actions, the run asked for the exec's
/// terminal to be resized and was told that it was done. The reply at an
/// index answers the action at that index.
pub open spec fn resized_before(
    actions: Seq<ActionView>,
    replies: Seq<ReplyView>,
    upto: int,
) -> bool {
    exists|j: int|
        0 <= j < upto && j < actions.len() && j < replies.len() && (#[trigger] actions[j])
            is Resize && replies[j] is Done
}

/// Whether the run is past the resizing of the terminal.
pub open spec fn past_resize(s: RunView) -> bool {
    ||| s.phase == ExecPhase::EnteringRaw
    ||| s.phase == ExecPhase::Writing
    ||| s.phase == ExecPhase::Flushing
    ||| s.phase == ExecPhase::Reading && s.mode == ExecMode::Attached
}

proof fn lemma_trace(request: RequestView, replies: Seq<ReplyView>)
    ensures
        actions_after(request, replies).len() == replies.len() + 1,
        state_after(request.mode, replies).mode == request.mode,
        state_after(request.mode, replies).phase == ExecPhase::Resizing ==> actions_after(
            request,
            replies,
        ).last() is Resize,
        past_resize(state_after(request.mode, replies)) ==> resized_before(
            actions_after(request, replies),
            replies,
            replies.len() as int,
        ),
        forall|i: int|
            0 <= i <= replies.len() && (#[trigger] actions_after(request, replies)[i]) is Write
                ==> resized_before(actions_after(request, replies), replies, i),
    decreases replies.len(),
{
    let all = actions_after(request, replies);
    if replies.len() > 0 {
        let n = replies.len() as int;
        let shorter = replies.drop_last();
        let before = state_after(request.mode, shorter);
        let earlier = actions_after(request, shorter);
        lemma_trace(request, shorter);
        let last = step(before, replies.last()).1;
        assert(all == earlier.push(last));
        assert forall|i: int| 0 <= i < n implies all[i] == earlier[i] by {}
        assert forall|i: int| 0 <= i < n - 1 implies replies[i] == shorter[i] by {}
        if resized_before(earlier, shorter, n - 1) {
            let j = choose|j: int|
                0 <= j < n - 1 && j < earlier.len() && j < shorter.len() && (#[trigger] earlier[j])
                    is Resize && shorter[j] is Done;
            assert(all[j] is Resize && replies[j] is Done);
        }
        if before.phase == ExecPhase::Resizing && replies.last() is Done {
            assert(all[n - 1] is Resize && replies[n - 1] is Done);
        }
        assert forall|i: int| 0 <= i <= n && (#[trigger] all[i]) is Write implies resized_before(
            all,
            replies,
            i,
        ) by {
            if i < n {
                assert(earlier[i] is Write);
                let j = choose|j: int|
                    0 <= j < i && j < earlier.len() && j < shorter.len() && (#[trigger] earlier[j])
                        is Resize && shorter[j] is Done;
                assert(all[j] is Resize && replies[j] is Done);
            } else {
                assert(past_resize(before));
                let j = choose|j: int|
                    0 <= j < n - 1 && j < earlier.len() && j < shorter.len() && (
                    #[trigger] earlier[j]) is Resize && shorter[j] is Done;
                assert(all[j] is Resize && replies[j] is Done);
            }
        }
    }
}

/// Whatever the replies: before a run asks for the first chunk of output to
/// be written, it has asked for the terminal to be resized and was told that
/// it was done.
pub proof fn lemma_resize_precedes_write(request: RequestView, replies: Seq<ReplyView>, i: int)
    requires
        0 <= i <= replies.len(),
        actions_after(request, replies)[i] is Write,
    ensures
        exists|j: int|
            0 <= j < i && (#[trigger] actions_after(request, replies)[j]) is Resize && replies[j]
                is Done,
{
    lemma_trace(request, replies);
    let all = actions_after(request, replies);
    let j = choose|j: int|
        0 <= j < i && j < all.len() && j < replies.len() && (#[trigger] all[j]) is Resize
            && replies[j] is Done;
    assert(all[j] is Resize && replies[j] is Done);
}

/// The phases in which a run deals with the local terminal.
pub open spec fn at_terminal(phase: ExecPhase) -> bool {
    match phase {
        ExecPhase::Forwarding => true,
        ExecPhase::Sizing => true,
        ExecPhase::Resizing => true,
        ExecPhase::EnteringRaw => true,
        ExecPhase::Writing => true,
        ExecPhase::Flushing => true,
        ExecPhase::LeavingRaw => true,
        _ => false,
    }
}

/// The phases in which a run waits for a detached command.
pub open spec fn polls(phase: ExecPhase) -> bool {
    phase == ExecPhase::Polling || phase == ExecPhase::Sleeping
}

/// What holds of every state that a run can reach: only an attached run
/// deals with the local terminal, only a detached run polls, and a detached
/// run never reads.
pub open spec fn consistent(s: RunView) -> bool {
    &&& at_terminal(s.phase) ==> s.mode == ExecMode::Attached
    &&& polls(s.phase) ==> s.mode == ExecMode::Detached
    &&& s.phase == ExecPhase::Reading ==> s.mode != ExecMode::Detached
}

/// Whatever the reply, a consistent run stays consistent.
pub proof fn lemma_step_keeps_consistent(s: RunView, r: ReplyView)
    requires
        consistent(s),
    ensures
        consistent(step(s, r).0),
{
}

/// Every state that a run can reach is consistent.
pub proof fn lemma_reachable_is_consistent(mode: ExecMode, replies: Seq<ReplyView>)
    ensures
        consistent(state_after(mode, replies)),
    decreases replies.len(),
{
    if replies.len() > 0 {
        lemma_reachable_is_consistent(mode, replies.drop_last());
        lemma_step_keeps_consistent(state_after(mode, replies.drop_last()), replies.last());
    }
}

/// Whether local standard output is in raw mode for the run.
pub open spec fn in_raw_mode(s: RunView) -> bool {
    ||| s.phase == ExecPhase::Writing
    ||| s.phase == ExecPhase::Flushing
    ||| s.phase == ExecPhase::Reading && s.mode == ExecMode::Attached
}

/// A run never ends while local standard output is in raw mode: whatever
/// the reply, it stays in raw mode or asks to leave it, and reports its
/// result or its failure only after that.
pub proof fn lemma_raw_mode_is_left(s: RunView, r: ReplyView)
    requires
        consistent(s),
        in_raw_mode(s),
    ensures
        in_raw_mode(step(s, r).0) || step(s, r).1 is LeaveRawMode,
        step(s, r).0.phase != ExecPhase::Finished,
        !(step(s, r).1 is Finished) && !(step(s, r).1 is Failed),
{
}

/// Whether a run that reads the output has done with it.
pub open spec fn past_output(s: RunView) -> bool {
    &&& s.mode != ExecMode::Detached
    &&& s.phase == ExecPhase::LeavingRaw || s.phase == ExecPhase::Inspecting || s.phase
        == ExecPhase::Finished
}

/// A run that reads the output asks for the exit code only when the output
/// has ended, and never reads or writes output after that.
pub proof fn lemma_exit_code_follows_output(s: RunView, r: ReplyView)
    requires
        consistent(s),
        s.mode != ExecMode::Detached,
    ensures
        step(s, r).1 is Inspect ==> past_output(step(s, r).0),
        past_output(s) ==> past_output(step(s, r).0) && !(step(s, r).1 is Read) && !(step(
            s,
            r,
        ).1 is Write),
{
}

/// Every chunk of output goes on as it came, and before the next is read:
/// an attached run asks for exactly the chunk to be written, then for the
/// flush, and only then for the next chunk; a buffered run puts exactly the
/// chunk at the end of what it has gathered.
pub proof fn lemma_output_is_kept(s: RunView, bytes: Seq<u8>)
    requires
        s.phase == ExecPhase::Reading,
    ensures
        s.mode == ExecMode::Attached ==> ({
            let written = step(s, ReplyView::Chunk(bytes));
            let flushed = step(written.0, ReplyView::Done);
            &&& written.1 == ActionView::Write(bytes)
            &&& flushed.1 == ActionView::Flush
            &&& step(flushed.0, ReplyView::Done) == (s, ActionView::Read)
        }),
        s.mode != ExecMode::Attached ==> step(s, ReplyView::Chunk(bytes)) == (
            RunView { output: s.output + bytes, ..s },
            ActionView::Read,
        ),
{
}

/// What the forwarding of local input has seen.
#[derive(PartialEq, Eq, Debug)]
pub enum InputEvent {
    /// A byte was read from the local terminal.
    Byte(u8),
    /// The local terminal had no byte.
    Idle,
    /// The byte was written to the command.
    Written,
    /// The byte could not be written, for this cause.
    WriteFailed(String),
}

/// What the forwarding of local input is to do next.
#[derive(PartialEq, Eq, Debug)]
pub enum InputAction {
    /// Write the byte to the command.
    Write(u8),
    /// Let other work run for a moment, then look for the next byte.
    Yield,
    /// Report the cause and stop: the command is gone.
    Stop { cause: String },
}

/// The view of [`InputEvent`]: the same value, with each text as its characters.
pub ghost enum InputEventView {
    Byte(u8),
    Idle,
    Written,
    WriteFailed(Seq<char>),
}

/// The view of [`InputAction`]: the same value, with each text as its characters.
pub ghost enum InputActionView {
    Write(u8),
    Yield,
    Stop { cause: Seq<char> },
}

impl View for InputEvent {
    type V = InputEventView;

    open spec fn view(&self) -> InputEventView {
        match *self {
            InputEvent::Byte(b) => InputEventView::Byte(b),
            InputEvent::Idle => InputEventView::Idle,
            InputEvent::Written => InputEventView::Written,
            InputEvent::WriteFailed(cause) => InputEventView::WriteFailed(cause@),
        }
    }
}

impl View for InputAction {
    type V = InputActionView;

    open spec fn view(&self) -> InputActionView {
        match *self {
            InputAction::Write(b) => InputActionView::Write(b),
            InputAction::Yield => InputActionView::Yield,
            InputAction::Stop { cause } => InputActionView::Stop { cause: cause@ },
        }
    }
}

/// How local input is forwarded: every byte that is read is written, as it
/// is; the forwarding stops only when a write fails.
pub open spec fn forwarded(event: InputEventView) -> InputActionView {
    match event {
        InputEventView::Byte(b) => InputActionView::Write(b),
        InputEventView::Idle => InputActionView::Yield,
        InputEventView::Written => InputActionView::Yield,
        InputEventView::WriteFailed(cause) => InputActionView::Stop { cause },
    }
}

/// Says what the forwarding of local input is to do next.
pub fn forward_input(event: InputEvent) -> (action: InputAction)
    ensures
        action@ == forwarded(event@),
{
    match event {
        InputEvent::Byte(b) => InputAction::Write(b),
        InputEvent::Idle => InputAction::Yield,
        InputEvent::Written => InputAction::Yield,
        InputEvent::WriteFailed(cause) => InputAction::Stop { cause },
    }
}

} // verus!
