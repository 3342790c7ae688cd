//! The life of one session.
//!
//! A session pulls the image, creates and starts the container, runs the
//! provisioning steps, puts the history file into the container where that
//! is wanted, runs the primary command, and removes the container. It is a
//! state machine: the caller performs each action that the machine asks for
//! and hands back what came of it; the machine answers with the next action.
//!
//! Whatever happens, a container that was created is removed, once; and a
//! container that was never created is never removed.

use vstd::prelude::*;
use crate::archive::{archive_of, build_archive, fits};
use crate::container::{config_of, home_directory, ConfigView, ContainerConfig, ContainerOptions};
use crate::error::{Error, ErrorView};
use crate::provision::{
    count_opened, error_detail, failure_of, label_of, opened, plan_of, primary_command,
    primary_text, step_failure, step_views, Provisioning, ProvisioningView, Step, StepView,
};
use crate::runner::{ExecMode, ExecRequest, RequestView};
use crate::text::{clone_optional, clone_strings, optional_view, views};

verus! {

/// Where a session stands.
#[derive(Clone, Copy, PartialEq, Eq, Structural, Debug)]
pub enum Phase {
    Connecting,
    PullingImage,
    CreatingContainer,
    StartingContainer,
    Provisioning,
    ReadingHistory,
    UploadingHistory,
    ExecutingPrimaryCommand,
    Cleanup,
    Terminated,
}

/// All that a session is told before it starts.
#[derive(PartialEq, Eq, Debug)]
pub struct SessionConfig {
    pub container: ContainerConfig,
    pub provisioning: Provisioning,
    /// The file of the host that is copied into the container as the shell's
    /// history, if any.
    pub history_file: Option<String>,
    /// The primary command and its arguments.
    pub command: Vec<String>,
}

/// How a session ended.
#[derive(PartialEq, Eq, Debug)]
pub enum SessionOutcome {
    /// The primary command ran and ended with this code.
    Exited(i64),
    /// The session failed.
    Failed(Error),
    /// The session was abandoned before the primary command ended.
    Interrupted,
}

/// What the user is shown while the session waits: the step that is under
/// way, as its place among all steps and a few words.
#[derive(PartialEq, Eq, Debug)]
pub struct Progress {
    pub position: usize,
    pub total: usize,
    pub message: String,
}

/// What the caller is to do next.
#[derive(PartialEq, Eq, Debug)]
pub enum Action {
    PullImage { image: String },
    CreateContainer(ContainerConfig),
    StartContainer { container: String },
    /// Run a provisioning step, in batch.
    RunStep { container: String, request: ExecRequest },
    /// Read the history file of the host.
    ReadHistory { host_file: String },
    /// Unpack the archive in this directory of the container.
    UploadArchive { container: String, directory: String, archive: Vec<u8> },
    /// Run the primary command, attached.
    RunPrimary { container: String, request: ExecRequest },
    /// Remove the container; by force where `force` is set.
    RemoveContainer { container: String, force: bool },
    /// The session is over. The failure of the removal, if it failed, is
    /// reported beside the outcome and does not replace it.
    Finish { outcome: SessionOutcome, cleanup_error: Option<Error> },
}

/// What came of the action that was asked for.
#[derive(PartialEq, Eq, Debug)]
pub enum Reply {
    /// The action is done and has nothing to report.
    Done,
    /// The container was created, with this id.
    ContainerCreated(String),
    /// The contents of the history file.
    Contents(Vec<u8>),
    /// The command ran to its end.
    Ran { exit_code: i64, output: String },
    /// The command could not be run to its end.
    RunFailed(Error),
    /// The action failed, for this cause.
    Failed(String),
}

/// One session.
#[derive(Debug)]
pub struct Context {
    connected: bool,
    phase: Phase,
    container_id: Option<String>,
    config: ContainerConfig,
    plan: Vec<Step>,
    next: usize,
    detached: bool,
    primary: String,
    history_file: Option<String>,
    outcome: SessionOutcome,
}

/// The view of [`SessionConfig`]: the same value, with each text as its characters.
pub ghost struct SessionConfigView {
    pub container: ConfigView,
    pub provisioning: ProvisioningView,
    pub history_file: Option<Seq<char>>,
    pub command: Seq<Seq<char>>,
}

/// The view of [`SessionOutcome`]: the same value, with each text as its characters.
pub ghost enum OutcomeView {
    Exited(i64),
    Failed(ErrorView),
    Interrupted,
}

/// The view of [`Action`]: the same value, with each text as its characters.
pub ghost enum ActionView {
    PullImage { image: Seq<char> },
    CreateContainer(ConfigView),
    StartContainer { container: Seq<char> },
    RunStep { container: Seq<char>, request: RequestView },
    ReadHistory { host_file: Seq<char> },
    UploadArchive { container: Seq<char>, directory: Seq<char>, archive: Seq<u8> },
    RunPrimary { container: Seq<char>, request: RequestView },
    RemoveContainer { container: Seq<char>, force: bool },
    Finish { outcome: OutcomeView, cleanup_error: Option<ErrorView> },
}

/// The view of [`Progress`], with its numbers unbounded.
pub ghost struct ProgressView {
    pub position: nat,
    pub total: nat,
    pub message: Seq<char>,
}

/// The view of [`Reply`]: the same value, with each text as its characters.
pub ghost enum ReplyView {
    Done,
    ContainerCreated(Seq<char>),
    Contents(Seq<u8>),
    Ran { exit_code: i64, output: Seq<char> },
    RunFailed(ErrorView),
    Failed(Seq<char>),
}

/// The state of a [`Context`], as the contracts speak of it.
pub ghost struct ContextView {
    pub connected: bool,
    pub phase: Phase,
    pub container: Option<Seq<char>>,
    pub config: ConfigView,
    pub plan: Seq<StepView>,
    pub next: nat,
    pub detached: bool,
    pub primary: Seq<char>,
    pub history_file: Option<Seq<char>>,
    pub outcome: OutcomeView,
}

/// The view of an optional failure.
pub open spec fn optional_error(e: Option<Error>) -> Option<ErrorView> {
    match e {
        Some(e) => Some(e@),
        None => None,
    }
}

impl View for SessionConfig {
    type V = SessionConfigView;

    open spec fn view(&self) -> SessionConfigView {
        SessionConfigView {
            container: self.container@,
            provisioning: self.provisioning@,
            history_file: optional_view(self.history_file),
            command: views(self.command@),
        }
    }
}

impl View for SessionOutcome {
    type V = OutcomeView;

    open spec fn view(&self) -> OutcomeView {
        match *self {
            SessionOutcome::Exited(code) => OutcomeView::Exited(code),
            SessionOutcome::Failed(e) => OutcomeView::Failed(e@),
            SessionOutcome::Interrupted => OutcomeView::Interrupted,
        }
    }
}

impl View for Action {
    type V = ActionView;

    open spec fn view(&self) -> ActionView {
        match *self {
            Action::PullImage { image } => ActionView::PullImage { image: image@ },
            Action::CreateContainer(config) => ActionView::CreateContainer(config@),
            Action::StartContainer { container } => ActionView::StartContainer {
                container: container@,
            },
            Action::RunStep { container, request } => ActionView::RunStep {
                container: container@,
                request: request@,
            },
            Action::ReadHistory { host_file } => ActionView::ReadHistory { host_file: host_file@ },
            Action::UploadArchive { container, directory, archive } => ActionView::UploadArchive {
                container: container@,
                directory: directory@,
                archive: archive@,
            },
            Action::RunPrimary { container, request } => ActionView::RunPrimary {
                container: container@,
                request: request@,
            },
            Action::RemoveContainer { container, force } => ActionView::RemoveContainer {
                container: container@,
                force,
            },
            Action::Finish { outcome, cleanup_error } => ActionView::Finish {
                outcome: outcome@,
                cleanup_error: optional_error(cleanup_error),
            },
        }
    }
}

impl View for Reply {
    type V = ReplyView;

    open spec fn view(&self) -> ReplyView {
        match *self {
            Reply::Done => ReplyView::Done,
            Reply::ContainerCreated(id) => ReplyView::ContainerCreated(id@),
            Reply::Contents(bytes) => ReplyView::Contents(bytes@),
            Reply::Ran { exit_code, output } => ReplyView::Ran { exit_code, output: output@ },
            Reply::RunFailed(e) => ReplyView::RunFailed(e@),
            Reply::Failed(cause) => ReplyView::Failed(cause@),
        }
    }
}

impl View for Context {
    type V = ContextView;

    closed spec fn view(&self) -> ContextView {
        ContextView {
            connected: self.connected,
            phase: self.phase,
            container: optional_view(self.container_id),
            config: self.config@,
            plan: step_views(self.plan@),
            next: self.next as nat,
            detached: self.detached,
            primary: self.primary@,
            history_file: optional_view(self.history_file),
            outcome: self.outcome@,
        }
    }
}

/// The name of the history file inside the container: `.zsh_history`.
pub open spec fn history_name() -> Seq<u8> {
    seq![46u8, 122u8, 115u8, 104u8, 95u8, 104u8, 105u8, 115u8, 116u8, 111u8, 114u8, 121u8]
}

/// The cause that is given where the history file is too large for an
/// archive.
pub open spec fn too_large() -> Seq<char> {
    "history file is too large"@
}

/// The options of a container of which nothing was chosen.
pub open spec fn plain_options() -> crate::container::OptionsView {
    crate::container::OptionsView {
        no_network: false,
        privileged: false,
        ro_root: false,
        ro_cwd: false,
        work_dir: None,
    }
}

/// A session before anything was done.
pub open spec fn fresh() -> ContextView {
    ContextView {
        connected: false,
        phase: Phase::Connecting,
        container: None,
        config: config_of(plain_options()),
        plan: Seq::empty(),
        next: 0,
        detached: false,
        primary: Seq::empty(),
        history_file: None,
        outcome: OutcomeView::Interrupted,
    }
}

/// The session after an attempt to reach the engine.
pub open spec fn connected(s: ContextView, reached: bool) -> ContextView {
    ContextView { connected: s.connected || reached, ..s }
}

/// The session ends with this outcome: the container is removed, by force,
/// where one was created; where none was, the session is over at once.
pub open spec fn cleanup(s: ContextView, outcome: OutcomeView) -> (ContextView, ActionView) {
    match s.container {
        Some(id) => (
            ContextView { phase: Phase::Cleanup, container: None, outcome, ..s },
            ActionView::RemoveContainer { container: id, force: true },
        ),
        None => (
            ContextView { phase: Phase::Terminated, outcome, ..s },
            ActionView::Finish { outcome, cleanup_error: None },
        ),
    }
}

/// The session fails.
pub open spec fn abort(s: ContextView, e: ErrorView) -> (ContextView, ActionView) {
    cleanup(s, OutcomeView::Failed(e))
}

/// The request that runs a provisioning step: in batch, as the privileged
/// user; detached where that is wanted, else with its output gathered.
pub open spec fn step_request(step: StepView, detached: bool) -> RequestView {
    RequestView {
        command: step.command,
        mode: if detached {
            ExecMode::Detached
        } else {
            ExecMode::Buffered
        },
        privileged: true,
    }
}

/// The request that runs the primary command: attached, as the unprivileged
/// user.
pub open spec fn primary_request(command: Seq<char>) -> RequestView {
    RequestView { command, mode: ExecMode::Attached, privileged: false }
}

/// The session runs the primary command.
pub open spec fn enter(s: ContextView) -> (ContextView, ActionView) {
    match s.container {
        Some(id) => (
            ContextView { phase: Phase::ExecutingPrimaryCommand, ..s },
            ActionView::RunPrimary { container: id, request: primary_request(s.primary) },
        ),
        None => abort(s, ErrorView::UnexpectedReply),
    }
}

/// The session goes on after the start of the container, or after a step
/// that went well: to the next step, or, when no step is left, to the
/// history file where one is wanted, or else to the primary command.
pub open spec fn proceed(s: ContextView) -> (ContextView, ActionView) {
    match s.container {
        Some(id) => if s.next < s.plan.len() {
            (
                ContextView { phase: Phase::Provisioning, ..s },
                ActionView::RunStep {
                    container: id,
                    request: step_request(s.plan[s.next as int], s.detached),
                },
            )
        } else {
            match s.history_file {
                Some(file) => (
                    ContextView { phase: Phase::ReadingHistory, ..s },
                    ActionView::ReadHistory { host_file: file },
                ),
                None => enter(s),
            }
        },
        None => abort(s, ErrorView::UnexpectedReply),
    }
}

/// The session takes the contents of the history file.
pub open spec fn upload(s: ContextView, contents: Seq<u8>) -> (ContextView, ActionView) {
    match s.container {
        Some(id) => if fits(history_name(), contents) {
            (
                ContextView { phase: Phase::UploadingHistory, ..s },
                ActionView::UploadArchive {
                    container: id,
                    directory: home_directory(),
                    archive: archive_of(history_name(), contents),
                },
            )
        } else {
            abort(s, ErrorView::HistoryArchive(too_large()))
        },
        None => abort(s, ErrorView::UnexpectedReply),
    }
}

/// The session takes the end of a provisioning step.
pub open spec fn provisioned(s: ContextView, exit_code: i64, output: Seq<char>) -> (
    ContextView,
    ActionView,
) {
    if s.next >= s.plan.len() {
        abort(s, ErrorView::UnexpectedReply)
    } else if exit_code != 0 {
        abort(s, failure_of(s.plan[s.next as int], exit_code, error_detail(output)))
    } else {
        proceed(ContextView { next: s.next + 1, ..s })
    }
}

/// The session is over.
pub open spec fn finish(s: ContextView, cleanup_error: Option<ErrorView>) -> (
    ContextView,
    ActionView,
) {
    (
        ContextView { phase: Phase::Terminated, ..s },
        ActionView::Finish { outcome: s.outcome, cleanup_error },
    )
}

/// The start of a session. Without a connection it fails at once. A session
/// that was started before fails too, unless it is already cleaning up or
/// over: then it keeps its outcome.
pub open spec fn start(s: ContextView, config: SessionConfigView) -> (ContextView, ActionView) {
    if s.phase == Phase::Cleanup || s.phase == Phase::Terminated {
        finish(s, None)
    } else if s.phase != Phase::Connecting {
        abort(s, ErrorView::UnexpectedReply)
    } else if !s.connected {
        abort(s, ErrorView::NotConnected)
    } else {
        (
            ContextView {
                phase: Phase::PullingImage,
                config: config.container,
                plan: plan_of(config.provisioning),
                next: 0,
                detached: config.provisioning.detached,
                primary: primary_text(config.command),
                history_file: config.history_file,
                ..s
            },
            ActionView::PullImage { image: config.container.image },
        )
    }
}

/// One step of a session: the state and the reply give the next state and
/// the next action.
pub open spec fn step(s: ContextView, r: ReplyView) -> (ContextView, ActionView) {
    match s.phase {
        Phase::Connecting => abort(s, ErrorView::UnexpectedReply),
        Phase::PullingImage => match r {
            ReplyView::Done => (
                ContextView { phase: Phase::CreatingContainer, ..s },
                ActionView::CreateContainer(s.config),
            ),
            ReplyView::Failed(cause) => abort(s, ErrorView::ImageCreate(cause)),
            _ => abort(s, ErrorView::UnexpectedReply),
        },
        Phase::CreatingContainer => match r {
            ReplyView::ContainerCreated(id) => (
                ContextView { phase: Phase::StartingContainer, container: Some(id), ..s },
                ActionView::StartContainer { container: id },
            ),
            ReplyView::Failed(cause) => abort(s, ErrorView::ContainerCreate(cause)),
            _ => abort(s, ErrorView::UnexpectedReply),
        },
        Phase::StartingContainer => match r {
            ReplyView::Done => proceed(s),
            ReplyView::Failed(cause) => abort(s, ErrorView::ContainerStart(cause)),
            _ => abort(s, ErrorView::UnexpectedReply),
        },
        Phase::Provisioning => match r {
            ReplyView::Ran { exit_code, output } => provisioned(s, exit_code, output),
            ReplyView::RunFailed(e) => abort(s, e),
            _ => abort(s, ErrorView::UnexpectedReply),
        },
        Phase::ReadingHistory => match r {
            ReplyView::Contents(bytes) => upload(s, bytes),
            ReplyView::Failed(cause) => abort(s, ErrorView::HistoryArchive(cause)),
            _ => abort(s, ErrorView::UnexpectedReply),
        },
        Phase::UploadingHistory => match r {
            ReplyView::Done => enter(s),
            ReplyView::Failed(cause) => abort(s, ErrorView::ArchiveUpload(cause)),
            _ => abort(s, ErrorView::UnexpectedReply),
        },
        Phase::ExecutingPrimaryCommand => match r {
            ReplyView::Ran { exit_code, output } => cleanup(s, OutcomeView::Exited(exit_code)),
            ReplyView::RunFailed(e) => abort(s, e),
            _ => abort(s, ErrorView::UnexpectedReply),
        },
        Phase::Cleanup => match r {
            ReplyView::Done => finish(s, None),
            ReplyView::Failed(cause) => finish(s, Some(ErrorView::ContainerDelete(cause))),
            _ => finish(s, Some(ErrorView::UnexpectedReply)),
        },
        Phase::Terminated => finish(s, None),
    }
}

/// The session is abandoned where it stands. A session that is already
/// cleaning up or over keeps its outcome, and nothing is removed again;
/// any other is interrupted, and its container is removed where one was
/// created.
pub open spec fn cancel(s: ContextView) -> (ContextView, ActionView) {
    match s.phase {
        Phase::Cleanup => finish(s, None),
        Phase::Terminated => finish(s, None),
        _ => cleanup(s, OutcomeView::Interrupted),
    }
}

/// The number of steps of a session with this plan, as shown to the user:
/// five for the pull, the creation, the start, the primary command and the
/// removal, and one for each step of the plan that counts as a step of its
/// own.
pub open spec fn total_of(plan: Seq<StepView>) -> nat {
    5 + opened(plan, plan.len() as int)
}

/// What the user is shown while the session is in this state; nothing
/// before the session has started and after it is over.
pub open spec fn shown(s: ContextView) -> Option<ProgressView> {
    let total = total_of(s.plan);
    match s.phase {
        Phase::Connecting => None,
        Phase::PullingImage => Some(
            ProgressView { position: 1, total, message: "Downloading image"@ },
        ),
        Phase::CreatingContainer => Some(
            ProgressView { position: 2, total, message: "Creating system"@ },
        ),
        Phase::StartingContainer => Some(
            ProgressView { position: 3, total, message: "Starting system"@ },
        ),
        Phase::Provisioning => if s.next < s.plan.len() {
            Some(
                ProgressView {
                    position: 3 + opened(s.plan, s.next as int + 1),
                    total,
                    message: label_of(s.plan[s.next as int]),
                },
            )
        } else {
            None
        },
        Phase::ReadingHistory => Some(
            ProgressView { position: (total - 1) as nat, total, message: "Copying history"@ },
        ),
        Phase::UploadingHistory => Some(
            ProgressView { position: (total - 1) as nat, total, message: "Copying history"@ },
        ),
        Phase::ExecutingPrimaryCommand => Some(
            ProgressView { position: (total - 1) as nat, total, message: "Executing"@ },
        ),
        Phase::Cleanup => Some(ProgressView { position: total, total, message: "Deleting system"@ }),
        Phase::Terminated => None,
    }
}

/// A number as a `usize`: the number itself where it fits, else the largest
/// `usize`.
pub open spec fn clipped(n: nat) -> usize {
    if n <= usize::MAX {
        n as usize
    } else {
        usize::MAX
    }
}

/// What is shown, with its numbers as `usize`.
pub open spec fn shown_as(p: Progress, v: ProgressView) -> bool {
    &&& p.position == clipped(v.position)
    &&& p.total == clipped(v.total)
    &&& p.message@ == v.message
}

/// The code with which the process ends: the code of the primary command,
/// cut to its lowest eight bits; 1 for a session that failed; 0 for one that
/// was interrupted.
pub open spec fn status_of(outcome: OutcomeView) -> int {
    match outcome {
        OutcomeView::Exited(code) => code as int % 256,
        OutcomeView::Failed(_) => 1,
        OutcomeView::Interrupted => 0,
    }
}

impl Clone for SessionOutcome {
    fn clone(&self) -> (copy: SessionOutcome)
        ensures
            copy@ == self@,
    {
        match self {
            SessionOutcome::Exited(code) => SessionOutcome::Exited(*code),
            SessionOutcome::Failed(e) => SessionOutcome::Failed(e.clone()),
            SessionOutcome::Interrupted => SessionOutcome::Interrupted,
        }
    }
}

impl Clone for SessionConfig {
    fn clone(&self) -> (copy: SessionConfig)
        ensures
            copy@ == self@,
    {
        SessionConfig {
            container: self.container.clone(),
            provisioning: self.provisioning.clone(),
            history_file: clone_optional(&self.history_file),
            command: clone_strings(&self.command),
        }
    }
}

impl SessionOutcome {
    /// The code with which the process ends.
    pub fn exit_status(&self) -> (status: u8)
        ensures
            status == status_of(self@),
    {
        match self {
            SessionOutcome::Exited(code) => {
                let r: i64 = *code % 256;
                if r < 0 {
                    (r + 256) as u8
                } else {
                    r as u8
                }
            },
            SessionOutcome::Failed(_) => 1,
            SessionOutcome::Interrupted => 0,
        }
    }
}

fn clipped_sum(a: usize, b: usize) -> (r: usize)
    ensures
        r == clipped((a + b) as nat),
{
    if b > usize::MAX - a {
        usize::MAX
    } else {
        a + b
    }
}

fn history_entry() -> (name: Vec<u8>)
    ensures
        name@ == history_name(),
{
    let mut name: Vec<u8> = Vec::new();
    name.push(46u8);
    name.push(122u8);
    name.push(115u8);
    name.push(104u8);
    name.push(95u8);
    name.push(104u8);
    name.push(105u8);
    name.push(115u8);
    name.push(116u8);
    name.push(111u8);
    name.push(114u8);
    name.push(121u8);
    assert(name@ =~= history_name());
    name
}

impl Default for Context {
    /// A session before anything was done.
    fn default() -> (context: Context)
        ensures
            context@ == fresh(),
    {
        Context::new()
    }
}

impl Context {
    /// A session before anything was done: not connected, no container.
    pub fn new() -> (context: Context)
        ensures
            context@ == fresh(),
            well_formed(context@),
    {
        let options = ContainerOptions {
            no_network: false,
            privileged: false,
            ro_root: false,
            ro_cwd: false,
            work_dir: None,
        };
        let context = Context {
            connected: false,
            phase: Phase::Connecting,
            container_id: None,
            config: ContainerConfig::new(&options),
            plan: Vec::new(),
            next: 0,
            detached: false,
            primary: String::new(),
            history_file: None,
            outcome: SessionOutcome::Interrupted,
        };
        assert(context@.plan =~= Seq::<StepView>::empty());
        context
    }

    /// Where the session stands.
    pub fn phase(&self) -> (p: Phase)
        ensures
            p == self@.phase,
    {
        self.phase
    }

    /// Whether the engine was reached.
    pub fn is_connected(&self) -> (r: bool)
        ensures
            r == self@.connected,
    {
        self.connected
    }

    /// Whether a container was created and is not yet handed out for
    /// removal.
    pub fn has_container(&self) -> (r: bool)
        ensures
            r == (self@.container is Some),
    {
        self.container_id.is_some()
    }

    /// How the session ends, as far as that is settled: once the session
    /// cleans up, this is its outcome for good.
    pub fn outcome(&self) -> (r: &SessionOutcome)
        ensures
            r@ == self@.outcome,
    {
        &self.outcome
    }

    /// The provisioning step that the session waits for, if it waits for
    /// one.
    pub fn current_step(&self) -> (r: Option<&Step>)
        ensures
            r is Some == (self@.phase == Phase::Provisioning && self@.next < self@.plan.len()),
            r is Some ==> r->0@ == self@.plan[self@.next as int],
    {
        match self.phase {
            Phase::Provisioning => if self.next < self.plan.len() {
                Some(&self.plan[self.next])
            } else {
                None
            },
            _ => None,
        }
    }

    /// What to show to the user while the action that was asked for last is
    /// under way.
    pub fn progress(&self) -> (r: Option<Progress>)
        ensures
            r is Some == shown(self@) is Some,
            r is Some ==> shown_as(r->0, shown(self@)->0),
    {
        let steps: usize = count_opened(&self.plan, self.plan.len());
        let total: usize = clipped_sum(steps, 5);
        let before: usize = clipped_sum(steps, 4);
        match self.phase {
            Phase::Connecting => None,
            Phase::PullingImage => Some(
                Progress { position: 1, total, message: "Downloading image".to_string() },
            ),
            Phase::CreatingContainer => Some(
                Progress { position: 2, total, message: "Creating system".to_string() },
            ),
            Phase::StartingContainer => Some(
                Progress { position: 3, total, message: "Starting system".to_string() },
            ),
            Phase::Provisioning => if self.next < self.plan.len() {
                let done: usize = count_opened(&self.plan, self.next + 1);
                Some(
                    Progress {
                        position: clipped_sum(done, 3),
                        total,
                        message: self.plan[self.next].label(),
                    },
                )
            } else {
                None
            },
            Phase::ReadingHistory => Some(
                Progress { position: before, total, message: "Copying history".to_string() },
            ),
            Phase::UploadingHistory => Some(
                Progress { position: before, total, message: "Copying history".to_string() },
            ),
            Phase::ExecutingPrimaryCommand => Some(
                Progress { position: before, total, message: "Executing".to_string() },
            ),
            Phase::Cleanup => Some(
                Progress { position: total, total, message: "Deleting system".to_string() },
            ),
            Phase::Terminated => None,
        }
    }

    /// Takes what came of the attempt to reach the engine. A session is
    /// connected from the first attempt that went well.
    pub fn connect(&mut self, attempt: Result<(), String>) -> (r: Result<(), Error>)
        ensures
            final(self)@ == connected(old(self)@, attempt is Ok),
            well_formed(old(self)@) ==> well_formed(final(self)@),
            attempt is Ok ==> r is Ok,
            attempt is Err ==> r is Err && r->Err_0@ == ErrorView::Connection(attempt->Err_0@),
    {
        match attempt {
            Ok(_) => {
                self.connected = true;
                Ok(())
            },
            Err(cause) => Err(Error::Connection(cause)),
        }
    }

    fn cleanup(&mut self, outcome: SessionOutcome) -> (action: Action)
        ensures
            (final(self)@, action@) == cleanup(old(self)@, outcome@),
    {
        match self.container_id.take() {
            Some(id) => {
                self.phase = Phase::Cleanup;
                self.outcome = outcome;
                Action::RemoveContainer { container: id, force: true }
            },
            None => {
                self.phase = Phase::Terminated;
                self.outcome = outcome.clone();
                Action::Finish { outcome, cleanup_error: None }
            },
        }
    }

    fn abort(&mut self, error: Error) -> (action: Action)
        ensures
            (final(self)@, action@) == abort(old(self)@, error@),
    {
        self.cleanup(SessionOutcome::Failed(error))
    }

    fn finish(&mut self, cleanup_error: Option<Error>) -> (action: Action)
        ensures
            (final(self)@, action@) == finish(old(self)@, optional_error(cleanup_error)),
    {
        self.phase = Phase::Terminated;
        Action::Finish { outcome: self.outcome.clone(), cleanup_error }
    }

    fn enter(&mut self) -> (action: Action)
        ensures
            (final(self)@, action@) == enter(old(self)@),
    {
        match &self.container_id {
            Some(id) => {
                let container = id.clone();
                self.phase = Phase::ExecutingPrimaryCommand;
                Action::RunPrimary {
                    container,
                    request: ExecRequest {
                        command: self.primary.clone(),
                        mode: ExecMode::Attached,
                        privileged: false,
                    },
                }
            },
            None => self.abort(Error::UnexpectedReply),
        }
    }

    fn proceed(&mut self) -> (action: Action)
        ensures
            (final(self)@, action@) == proceed(old(self)@),
    {
        match &self.container_id {
            Some(id) => {
                let container = id.clone();
                if self.next < self.plan.len() {
                    self.phase = Phase::Provisioning;
                    Action::RunStep {
                        container,
                        request: ExecRequest {
                            command: self.plan[self.next].command.clone(),
                            mode: if self.detached {
                                ExecMode::Detached
                            } else {
                                ExecMode::Buffered
                            },
                            privileged: true,
                        },
                    }
                } else {
                    match &self.history_file {
                        Some(file) => {
                            let host_file = file.clone();
                            self.phase = Phase::ReadingHistory;
                            Action::ReadHistory { host_file }
                        },
                        None => self.enter(),
                    }
                }
            },
            None => self.abort(Error::UnexpectedReply),
        }
    }

    fn upload(&mut self, contents: Vec<u8>) -> (action: Action)
        ensures
            (final(self)@, action@) == upload(old(self)@, contents@),
    {
        match &self.container_id {
            Some(id) => {
                let container = id.clone();
                let name = history_entry();
                match build_archive(name.as_slice(), contents.as_slice()) {
                    Some(archive) => {
                        self.phase = Phase::UploadingHistory;
                        Action::UploadArchive {
                            container,
                            directory: "/home/tempsystem".to_string(),
                            archive,
                        }
                    },
                    None => self.abort(
                        Error::HistoryArchive("history file is too large".to_string()),
                    ),
                }
            },
            None => self.abort(Error::UnexpectedReply),
        }
    }

    fn provisioned(&mut self, exit_code: i64, output: String) -> (action: Action)
        ensures
            (final(self)@, action@) == provisioned(old(self)@, exit_code, output@),
    {
        if self.next >= self.plan.len() {
            self.abort(Error::UnexpectedReply)
        } else if exit_code != 0 {
            let failure = step_failure(&self.plan[self.next], exit_code, output.as_str());
            self.abort(failure)
        } else {
            self.next = self.next + 1;
            self.proceed()
        }
    }

    /// Starts the session: the first action is to pull the image. A session
    /// that is not connected fails at once, and so does one that was started
    /// before and still runs.
    pub fn perform_all_enter(&mut self, config: SessionConfig) -> (action: Action)
        ensures
            (final(self)@, action@) == start(old(self)@, config@),
            well_formed(old(self)@) ==> well_formed(final(self)@),
    {
        proof {
            if well_formed(self@) {
                lemma_react_keeps_well_formed(self@, Input::Start(config@));
            }
        }
        match self.phase {
            Phase::Connecting => {},
            Phase::Cleanup => {
                return self.finish(None);
            },
            Phase::Terminated => {
                return self.finish(None);
            },
            _ => {
                return self.abort(Error::UnexpectedReply);
            },
        }
        if !self.connected {
            return self.abort(Error::NotConnected);
        }
        let image = config.container.image.clone();
        self.phase = Phase::PullingImage;
        self.plan = config.provisioning.plan();
        self.next = 0;
        self.detached = config.provisioning.detached;
        self.primary = primary_command(&config.command);
        self.history_file = config.history_file;
        self.config = config.container;
        Action::PullImage { image }
    }

    /// Takes the reply to the action that was asked for last, and says what
    /// to do next.
    pub fn advance(&mut self, reply: Reply) -> (action: Action)
        ensures
            (final(self)@, action@) == step(old(self)@, reply@),
            well_formed(old(self)@) ==> well_formed(final(self)@),
    {
        proof {
            if well_formed(self@) {
                lemma_react_keeps_well_formed(self@, Input::Reply(reply@));
            }
        }
        match self.phase {
            Phase::Connecting => self.abort(Error::UnexpectedReply),
            Phase::PullingImage => match reply {
                Reply::Done => {
                    self.phase = Phase::CreatingContainer;
                    Action::CreateContainer(self.config.clone())
                },
                Reply::Failed(cause) => self.abort(Error::ImageCreate(cause)),
                _ => self.abort(Error::UnexpectedReply),
            },
            Phase::CreatingContainer => match reply {
                Reply::ContainerCreated(id) => {
                    self.phase = Phase::StartingContainer;
                    self.container_id = Some(id.clone());
                    Action::StartContainer { container: id }
                },
                Reply::Failed(cause) => self.abort(Error::ContainerCreate(cause)),
                _ => self.abort(Error::UnexpectedReply),
            },
            Phase::StartingContainer => match reply {
                Reply::Done => self.proceed(),
                Reply::Failed(cause) => self.abort(Error::ContainerStart(cause)),
                _ => self.abort(Error::UnexpectedReply),
            },
            Phase::Provisioning => match reply {
                Reply::Ran { exit_code, output } => self.provisioned(exit_code, output),
                Reply::RunFailed(e) => self.abort(e),
                _ => self.abort(Error::UnexpectedReply),
            },
            Phase::ReadingHistory => match reply {
                Reply::Contents(bytes) => self.upload(bytes),
                Reply::Failed(cause) => self.abort(Error::HistoryArchive(cause)),
                _ => self.abort(Error::UnexpectedReply),
            },
            Phase::UploadingHistory => match reply {
                Reply::Done => self.enter(),
                Reply::Failed(cause) => self.abort(Error::ArchiveUpload(cause)),
                _ => self.abort(Error::UnexpectedReply),
            },
            Phase::ExecutingPrimaryCommand => match reply {
                Reply::Ran { exit_code, output } => self.cleanup(SessionOutcome::Exited(exit_code)),
                Reply::RunFailed(e) => self.abort(e),
                _ => self.abort(Error::UnexpectedReply),
            },
            Phase::Cleanup => match reply {
                Reply::Done => self.finish(None),
                Reply::Failed(cause) => self.finish(Some(Error::ContainerDelete(cause))),
                _ => self.finish(Some(Error::UnexpectedReply)),
            },
            Phase::Terminated => self.finish(None),
        }
    }

    /// Abandons the session where it stands, as when the user interrupts it,
    /// and says how to clean up: a container that was created and is not yet
    /// handed out for removal is to be removed; otherwise the session is
    /// over.
    pub fn delete_container(&mut self) -> (action: Action)
        ensures
            (final(self)@, action@) == cancel(old(self)@),
            well_formed(old(self)@) ==> well_formed(final(self)@),
    {
        proof {
            if well_formed(self@) {
                lemma_react_keeps_well_formed(self@, Input::Cancel);
            }
        }
        match self.phase {
            Phase::Cleanup => self.finish(None),
            Phase::Terminated => self.finish(None),
            _ => self.cleanup(SessionOutcome::Interrupted),
        }
    }
}

/// What can happen to a session.
pub ghost enum Input {
    /// An attempt to reach the engine, which went well or not.
    Connect { reached: bool },
    /// The start of the session.
    Start(SessionConfigView),
    /// The reply to the action that was asked for last.
    Reply(ReplyView),
    /// The session is abandoned.
    Cancel,
}

/// What a session does when something happens to it: its next state, and
/// the action it asks for, if any.
pub open spec fn react(s: ContextView, input: Input) -> (ContextView, Option<ActionView>) {
    match input {
        Input::Connect { reached } => (connected(s, reached), None),
        Input::Start(config) => (start(s, config).0, Some(start(s, config).1)),
        Input::Reply(r) => (step(s, r).0, Some(step(s, r).1)),
        Input::Cancel => (cancel(s).0, Some(cancel(s).1)),
    }
}

/// The state of a session to which all this has happened, in this order.
pub open spec fn state_after(inputs: Seq<Input>) -> ContextView
    decreases inputs.len(),
{
    if inputs.len() == 0 {
        fresh()
    } else {
        react(state_after(inputs.drop_last()), inputs.last()).0
    }
}

/// What the session asked for when the last of these things happened.
pub open spec fn last_action(inputs: Seq<Input>) -> Option<ActionView>
    recommends
        inputs.len() > 0,
{
    react(state_after(inputs.drop_last()), inputs.last()).1
}

/// Whether the last of these things was the creation of the container.
pub open spec fn last_created(inputs: Seq<Input>) -> bool
    recommends
        inputs.len() > 0,
{
    state_after(inputs.drop_last()).phase == Phase::CreatingContainer && inputs.last()
        matches Input::Reply(ReplyView::ContainerCreated(_))
}

/// How many times a container was created.
pub open spec fn creations(inputs: Seq<Input>) -> nat
    decreases inputs.len(),
{
    if inputs.len() == 0 {
        0
    } else {
        creations(inputs.drop_last()) + if last_created(inputs) {
            1nat
        } else {
            0nat
        }
    }
}

/// How many times the session asked for a container to be removed.
pub open spec fn removals(inputs: Seq<Input>) -> nat
    decreases inputs.len(),
{
    if inputs.len() == 0 {
        0
    } else {
        removals(inputs.drop_last()) + if last_action(inputs) matches Some(
            ActionView::RemoveContainer { .. },
        ) {
            1nat
        } else {
            0nat
        }
    }
}

/// Whether the session is cleaning up or over.
pub open spec fn winding_down(s: ContextView) -> bool {
    s.phase == Phase::Cleanup || s.phase == Phase::Terminated
}

/// Whether the session has a container that is up.
pub open spec fn holds_container(s: ContextView) -> bool {
    ||| s.phase == Phase::StartingContainer
    ||| s.phase == Phase::Provisioning
    ||| s.phase == Phase::ReadingHistory
    ||| s.phase == Phase::UploadingHistory
    ||| s.phase == Phase::ExecutingPrimaryCommand
}

/// What holds of every state that a session can reach: it knows the id of
/// a container exactly while it has one that is up; while it provisions
/// there is a step that it waits for; and it has no outcome other than to be
/// interrupted before it cleans up.
pub open spec fn well_formed(s: ContextView) -> bool {
    &&& s.container is Some <==> holds_container(s)
    &&& s.phase == Phase::Provisioning ==> s.next < s.plan.len()
    &&& !winding_down(s) ==> s.outcome == OutcomeView::Interrupted
}

/// Whatever happens to a session, its state stays well formed.
pub proof fn lemma_react_keeps_well_formed(s: ContextView, input: Input)
    requires
        well_formed(s),
    ensures
        well_formed(react(s, input).0),
{
}

/// Every state that a session can reach is well formed.
pub proof fn lemma_reachable_is_well_formed(inputs: Seq<Input>)
    ensures
        well_formed(state_after(inputs)),
    decreases inputs.len(),
{
    if inputs.len() > 0 {
        lemma_reachable_is_well_formed(inputs.drop_last());
        lemma_react_keeps_well_formed(state_after(inputs.drop_last()), inputs.last());
    }
}

/// Whatever happens to a session, in whatever order: a container is created
/// at most once; the session never asks for a removal unless a container
/// was created, and never twice; and once the session cleans up or is over,
/// it has asked for the removal of the container that was created.
pub proof fn lemma_container_removed_once(inputs: Seq<Input>)
    ensures
        creations(inputs) <= 1,
        removals(inputs) <= creations(inputs),
        winding_down(state_after(inputs)) ==> removals(inputs) == creations(inputs),
        holds_container(state_after(inputs)) ==> creations(inputs) == 1 && removals(inputs) == 0,
        !winding_down(state_after(inputs)) && !holds_container(state_after(inputs)) ==> creations(
            inputs,
        ) == 0,
    decreases inputs.len(),
{
    if inputs.len() > 0 {
        lemma_container_removed_once(inputs.drop_last());
        lemma_reachable_is_well_formed(inputs.drop_last());
    }
}

/// Once a session is cleaning up or over, it stays so, keeps its outcome
/// whatever comes of the removal, and asks for nothing but to be finished
/// with that outcome.
pub proof fn lemma_winding_down_is_final(s: ContextView, input: Input)
    requires
        well_formed(s),
        winding_down(s),
    ensures
        winding_down(react(s, input).0),
        react(s, input).0.outcome == s.outcome,
        react(s, input).1 matches Some(a) ==> a matches ActionView::Finish { outcome, .. }
            && outcome == s.outcome,
{
}

/// A provisioning step that ends with a code other than zero ends the
/// session: it fails with the failure of that step, and goes on to clean
/// up.
pub proof fn lemma_failed_step_aborts(s: ContextView, exit_code: i64, output: Seq<char>)
    requires
        well_formed(s),
        s.phase == Phase::Provisioning,
        exit_code != 0,
    ensures
        ({
            let after = step(s, ReplyView::Ran { exit_code, output });
            &&& after.0.phase == Phase::Cleanup
            &&& after.0.outcome == OutcomeView::Failed(
                failure_of(s.plan[s.next as int], exit_code, error_detail(output)),
            )
            &&& after.1 == (ActionView::RemoveContainer { container: s.container->0, force: true })
        }),
{
}

/// A session that is abandoned before it cleans up ends interrupted,
/// wherever it stood: its container is removed where it has one, and
/// otherwise it is over at once.
pub proof fn lemma_abandoned_session_is_interrupted(s: ContextView)
    requires
        well_formed(s),
        !winding_down(s),
    ensures
        cancel(s).0.outcome == OutcomeView::Interrupted,
        holds_container(s) ==> cancel(s).0.phase == Phase::Cleanup && cancel(s).1 == (
            ActionView::RemoveContainer { container: s.container->0, force: true }
        ),
        !holds_container(s) ==> cancel(s).0.phase == Phase::Terminated && cancel(s).1 == (
            ActionView::Finish { outcome: OutcomeView::Interrupted, cleanup_error: None }
        ),
{
}

/// Whether the action runs a command in the container.
pub open spec fn runs_command(a: ActionView) -> bool {
    a is RunStep || a is RunPrimary
}

/// Whatever happens to a session: after the first provisioning step that
/// ends with a code other than zero, the session runs no command any more,
/// neither a later step nor the primary command.
pub proof fn lemma_failed_step_stops_commands(inputs: Seq<Input>, k: int, m: int)
    requires
        0 <= k < m <= inputs.len(),
        state_after(inputs.take(k)).phase == Phase::Provisioning,
        inputs[k] matches Input::Reply(ReplyView::Ran { exit_code, .. }) && exit_code != 0,
    ensures
        winding_down(state_after(inputs.take(m))),
        last_action(inputs.take(m)) matches Some(a) ==> !runs_command(a),
    decreases m - k,
{
    let before = state_after(inputs.take(m - 1));
    lemma_reachable_is_well_formed(inputs.take(m - 1));
    assert(inputs.take(m).drop_last() =~= inputs.take(m - 1));
    assert(inputs.take(m).last() == inputs[m - 1]);
    if m == k + 1 {
    } else {
        lemma_failed_step_stops_commands(inputs, k, m - 1);
        lemma_winding_down_is_final(before, inputs[m - 1]);
    }
}

/// The id of the container that was created, if one was.
pub open spec fn created_id(inputs: Seq<Input>) -> Option<Seq<char>>
    decreases inputs.len(),
{
    if inputs.len() == 0 {
        None
    } else if last_created(inputs) {
        match inputs.last() {
            Input::Reply(ReplyView::ContainerCreated(id)) => Some(id),
            _ => None,
        }
    } else {
        created_id(inputs.drop_last())
    }
}

/// The container that an action names, if it names one.
pub open spec fn container_of(a: ActionView) -> Option<Seq<char>> {
    match a {
        ActionView::StartContainer { container } => Some(container),
        ActionView::RunStep { container, .. } => Some(container),
        ActionView::UploadArchive { container, .. } => Some(container),
        ActionView::RunPrimary { container, .. } => Some(container),
        ActionView::RemoveContainer { container, .. } => Some(container),
        _ => None,
    }
}

/// Whatever happens to a session: every action that names a container,
/// its removal among them, names the one that the engine created for this
/// session.
pub proof fn lemma_actions_name_the_created_container(inputs: Seq<Input>)
    ensures
        state_after(inputs).container is Some ==> state_after(inputs).container == created_id(
            inputs,
        ),
        inputs.len() > 0 && last_action(inputs) is Some && container_of(last_action(inputs)->0)
            is Some ==> container_of(last_action(inputs)->0) == created_id(inputs),
    decreases inputs.len(),
{
    if inputs.len() > 0 {
        lemma_actions_name_the_created_container(inputs.drop_last());
        lemma_reachable_is_well_formed(inputs.drop_last());
    }
}

/// How many replies a session can still take, at most, before it is over.
pub open spec fn replies_left(s: ContextView) -> nat {
    match s.phase {
        Phase::Connecting => 1,
        Phase::PullingImage => 8 + s.plan.len(),
        Phase::CreatingContainer => 7 + s.plan.len(),
        Phase::StartingContainer => 6 + s.plan.len(),
        Phase::Provisioning => (5 + s.plan.len() - s.next) as nat,
        Phase::ReadingHistory => 4,
        Phase::UploadingHistory => 3,
        Phase::ExecutingPrimaryCommand => 2,
        Phase::Cleanup => 1,
        Phase::Terminated => 0,
    }
}

/// Every reply brings a session nearer to its end: a session is over after
/// a number of replies that its plan bounds, whatever the replies are. And
/// a session that is abandoned is over after one reply at most.
pub proof fn lemma_session_ends(s: ContextView, r: ReplyView)
    requires
        well_formed(s),
    ensures
        s.phase != Phase::Terminated ==> replies_left(step(s, r).0) < replies_left(s),
        s.phase == Phase::Terminated ==> step(s, r).0.phase == Phase::Terminated,
        replies_left(cancel(s).0) <= 1,
{
}

} // verus!
