use tempsystem::archive::build_archive;
use tempsystem::container::{ContainerConfig, ContainerOptions};
use tempsystem::error::Error;
use tempsystem::provision::Provisioning;
use tempsystem::runner::{ExecMode, ExecRequest};
use tempsystem::session::{
    Action, Context, Phase, Progress, Reply, SessionConfig, SessionOutcome,
};

fn container() -> ContainerConfig {
    ContainerConfig::new(&ContainerOptions {
        no_network: false,
        privileged: false,
        ro_root: false,
        ro_cwd: false,
        work_dir: Some("/src".to_string()),
    })
}

fn config(packages: Option<&str>, aur: Option<&str>, update: bool) -> SessionConfig {
    SessionConfig {
        container: container(),
        provisioning: Provisioning {
            extra_repository: None,
            second_repository: None,
            update_system: update,
            file_index: None,
            extra_packages: packages.map(|s| s.to_string()),
            extra_aur_packages: aur.map(|s| s.to_string()),
            detached: false,
        },
        history_file: None,
        command: vec!["/usr/bin/zsh".to_string()],
    }
}

fn connected() -> Context {
    let mut context = Context::default();
    assert_eq!(context.phase(), Phase::Connecting);
    assert!(!context.is_connected());
    assert_eq!(context.connect(Ok(())), Ok(()));
    assert!(context.is_connected());
    context
}

fn up(config: SessionConfig) -> (Context, Action) {
    let mut context = connected();
    let action = context.perform_all_enter(config);
    assert_eq!(action, Action::PullImage { image: "codeberg.org/land/tempsystem:latest".to_string() });
    assert_eq!(context.phase(), Phase::PullingImage);
    assert_eq!(context.advance(Reply::Done), Action::CreateContainer(container()));
    assert!(!context.has_container());
    let action = context.advance(Reply::ContainerCreated("c1".to_string()));
    assert_eq!(action, Action::StartContainer { container: "c1".to_string() });
    assert!(context.has_container());
    let action = context.advance(Reply::Done);
    (context, action)
}

fn step(command: &str) -> Action {
    Action::RunStep {
        container: "c1".to_string(),
        request: ExecRequest { command: command.to_string(), mode: ExecMode::Buffered, privileged: true },
    }
}

fn primary(command: &str) -> Action {
    Action::RunPrimary {
        container: "c1".to_string(),
        request: ExecRequest { command: command.to_string(), mode: ExecMode::Attached, privileged: false },
    }
}

fn remove() -> Action {
    Action::RemoveContainer { container: "c1".to_string(), force: true }
}

fn ran(exit_code: i64, output: &str) -> Reply {
    Reply::Ran { exit_code, output: output.to_string() }
}

fn finish(outcome: SessionOutcome) -> Action {
    Action::Finish { outcome, cleanup_error: None }
}

#[test]
fn plain_session_runs_the_shell_and_removes_the_container() {
    let (mut context, action) = up(config(None, None, false));
    assert_eq!(action, primary("SHOW_WELCOME=true /usr/bin/zsh"));
    assert_eq!(context.phase(), Phase::ExecutingPrimaryCommand);
    assert_eq!(context.advance(ran(42, "")), remove());
    assert_eq!(context.phase(), Phase::Cleanup);
    assert!(!context.has_container());
    assert_eq!(context.advance(Reply::Done), finish(SessionOutcome::Exited(42)));
    assert_eq!(context.phase(), Phase::Terminated);
    assert_eq!(context.advance(Reply::Done), finish(SessionOutcome::Exited(42)));
    assert_eq!(context.delete_container(), finish(SessionOutcome::Exited(42)));
}

#[test]
fn other_command_is_run_as_one_shell_command() {
    let mut c = config(None, None, false);
    c.command = vec!["echo".to_string(), "it's".to_string()];
    let (_, action) = up(c);
    assert_eq!(action, primary("echo it\\'s"));
}

#[test]
fn session_without_connection_fails_at_once() {
    let mut context = Context::new();
    assert_eq!(
        context.connect(Err("no socket".to_string())),
        Err(Error::Connection("no socket".to_string()))
    );
    assert!(!context.is_connected());
    let action = context.perform_all_enter(config(None, None, false));
    assert_eq!(action, finish(SessionOutcome::Failed(Error::NotConnected)));
    assert_eq!(context.phase(), Phase::Terminated);
    assert_eq!(context.delete_container(), finish(SessionOutcome::Failed(Error::NotConnected)));
}

#[test]
fn failed_pull_removes_nothing() {
    let mut context = connected();
    context.perform_all_enter(config(None, None, false));
    let action = context.advance(Reply::Failed("no such image".to_string()));
    assert_eq!(action, finish(SessionOutcome::Failed(Error::ImageCreate("no such image".to_string()))));
    assert_eq!(context.phase(), Phase::Terminated);
}

#[test]
fn failed_create_removes_nothing() {
    let mut context = connected();
    context.perform_all_enter(config(None, None, false));
    context.advance(Reply::Done);
    let action = context.advance(Reply::Failed("conflict".to_string()));
    assert_eq!(action, finish(SessionOutcome::Failed(Error::ContainerCreate("conflict".to_string()))));
}

#[test]
fn failed_start_removes_the_container() {
    let mut context = connected();
    context.perform_all_enter(config(None, None, false));
    context.advance(Reply::Done);
    context.advance(Reply::ContainerCreated("c1".to_string()));
    assert_eq!(context.advance(Reply::Failed("oom".to_string())), remove());
    assert_eq!(
        context.advance(Reply::Done),
        finish(SessionOutcome::Failed(Error::ContainerStart("oom".to_string())))
    );
}

#[test]
fn cancel_after_create_before_start_removes_the_container() {
    let mut context = connected();
    context.perform_all_enter(config(None, None, false));
    context.advance(Reply::Done);
    context.advance(Reply::ContainerCreated("c1".to_string()));
    assert_eq!(context.phase(), Phase::StartingContainer);
    assert_eq!(context.delete_container(), remove());
    let action = context.advance(Reply::Done);
    assert_eq!(action, finish(SessionOutcome::Interrupted));
    if let Action::Finish { outcome, .. } = action {
        assert_eq!(outcome.exit_status(), 0);
    }
}

#[test]
fn cancel_before_create_removes_nothing() {
    let mut context = connected();
    assert_eq!(context.delete_container(), finish(SessionOutcome::Interrupted));
    let mut context = connected();
    context.perform_all_enter(config(None, None, false));
    assert_eq!(context.delete_container(), finish(SessionOutcome::Interrupted));
    let mut context = connected();
    context.perform_all_enter(config(None, None, false));
    context.advance(Reply::Done);
    assert_eq!(context.delete_container(), finish(SessionOutcome::Interrupted));
    assert_eq!(context.phase(), Phase::Terminated);
}

#[test]
fn cancel_during_cleanup_removes_nothing_again() {
    let (mut context, _) = up(config(None, None, false));
    assert_eq!(context.advance(ran(0, "")), remove());
    assert_eq!(context.delete_container(), finish(SessionOutcome::Exited(0)));
    assert_eq!(context.delete_container(), finish(SessionOutcome::Exited(0)));
}

#[test]
fn one_removal_for_one_creation_on_every_path() {
    let scripts: Vec<Vec<Option<Reply>>> = vec![
        vec![Some(Reply::Done), Some(Reply::ContainerCreated("c1".to_string())), None, None, Some(Reply::Done)],
        vec![Some(Reply::Done), Some(Reply::ContainerCreated("c1".to_string())), Some(Reply::Done), Some(ran(1, "")), Some(Reply::Failed("x".to_string())), None],
        vec![Some(Reply::Done), Some(Reply::Failed("x".to_string())), None, Some(Reply::Done)],
        vec![None, Some(Reply::Done), Some(Reply::ContainerCreated("late".to_string()))],
        vec![Some(Reply::Done), Some(Reply::ContainerCreated("c1".to_string())), Some(Reply::ContainerCreated("c2".to_string())), Some(Reply::Done)],
    ];
    let created = [1, 1, 0, 0, 1];
    for (script, expected) in scripts.into_iter().zip(created) {
        let mut context = connected();
        let mut removals = 0;
        context.perform_all_enter(config(Some("git"), None, false));
        for input in script {
            let action = match input {
                Some(reply) => context.advance(reply),
                None => context.delete_container(),
            };
            if let Action::RemoveContainer { container, force } = action {
                assert_eq!(container, "c1");
                assert!(force);
                removals += 1;
            }
        }
        assert_eq!(context.phase(), Phase::Terminated);
        assert_eq!(removals, expected);
    }
}

#[test]
fn missing_package_fails_before_any_install() {
    let (mut context, action) = up(config(Some("foo"), None, false));
    assert_eq!(action, step("/bin/pacman -Ssq \"^foo$\""));
    assert_eq!(context.phase(), Phase::Provisioning);
    assert_eq!(context.advance(ran(1, "")), remove());
    let action = context.advance(Reply::Done);
    let expected = Error::PackageDNE { package: "foo".to_string(), code: 1, detail: String::new() };
    assert_eq!(action, finish(SessionOutcome::Failed(expected)));
    if let Action::Finish { outcome: SessionOutcome::Failed(e), .. } = action {
        assert_eq!(e.message(), "package does not exist: foo");
    }
}

#[test]
fn packages_are_probed_and_installed_in_turn() {
    let (mut context, action) = up(config(Some("git vim"), Some("paru"), true));
    assert_eq!(action, step("/bin/sudo /bin/pacman -Syu --noconfirm"));
    assert_eq!(context.advance(ran(0, "")), step("/bin/pacman -Ssq \"^git$\""));
    assert_eq!(context.advance(ran(0, "git\n")), step("/bin/sudo /bin/pacman -S --needed --noconfirm git"));
    assert_eq!(context.advance(ran(0, "")), step("/bin/pacman -Ssq \"^vim$\""));
    assert_eq!(context.advance(ran(0, "")), step("/bin/sudo /bin/pacman -S --needed --noconfirm vim"));
    assert_eq!(context.advance(ran(0, "")), step("/bin/yay --aur -Ssq \"^paru$\""));
    assert_eq!(
        context.advance(ran(0, "")),
        step("/bin/yay --sync --needed --noconfirm --noprogressbar paru")
    );
    assert_eq!(context.advance(ran(0, "")), primary("SHOW_WELCOME=true /usr/bin/zsh"));
}

#[test]
fn first_failing_step_stops_the_rest() {
    let (mut context, _) = up(config(Some("git vim"), None, true));
    assert_eq!(context.advance(ran(0, "")), step("/bin/pacman -Ssq \"^git$\""));
    assert_eq!(context.advance(ran(0, "")), step("/bin/sudo /bin/pacman -S --needed --noconfirm git"));
    assert_eq!(context.advance(ran(13, "error: failed to commit transaction\n")), remove());
    let failure = Error::PackageInstall { code: 13, detail: "failed to commit transaction".to_string() };
    assert_eq!(context.advance(ran(0, "")), Action::Finish {
        outcome: SessionOutcome::Failed(failure.clone()),
        cleanup_error: Some(Error::UnexpectedReply),
    });
    assert_eq!(context.advance(ran(0, "")), finish(SessionOutcome::Failed(failure.clone())));
    assert_eq!(context.advance(Reply::Done), finish(SessionOutcome::Failed(failure)));
}

#[test]
fn failed_update_is_a_failure_of_the_update() {
    let (mut context, _) = up(config(None, None, true));
    assert_eq!(context.advance(ran(2, "")), remove());
    assert_eq!(
        context.advance(Reply::Done),
        finish(SessionOutcome::Failed(Error::SystemUpdate { code: 2, detail: String::new() }))
    );
}

#[test]
fn run_failure_is_passed_on() {
    let (mut context, _) = up(config(None, None, true));
    assert_eq!(context.advance(Reply::RunFailed(Error::ExecCreate("x".to_string()))), remove());
    assert_eq!(
        context.advance(Reply::Done),
        finish(SessionOutcome::Failed(Error::ExecCreate("x".to_string())))
    );
    let (mut context, _) = up(config(None, None, false));
    assert_eq!(context.advance(Reply::RunFailed(Error::ExpectedAttached)), remove());
    assert_eq!(context.advance(Reply::Done), finish(SessionOutcome::Failed(Error::ExpectedAttached)));
}

#[test]
fn cleanup_failure_does_not_replace_the_outcome() {
    let (mut context, _) = up(config(None, None, false));
    assert_eq!(context.advance(ran(5, "")), remove());
    assert_eq!(context.advance(Reply::Failed("busy".to_string())), Action::Finish {
        outcome: SessionOutcome::Exited(5),
        cleanup_error: Some(Error::ContainerDelete("busy".to_string())),
    });
    let (mut context, _) = up(config(None, None, false));
    context.advance(Reply::RunFailed(Error::Rawmode("r".to_string())));
    assert_eq!(context.advance(Reply::Failed("busy".to_string())), Action::Finish {
        outcome: SessionOutcome::Failed(Error::Rawmode("r".to_string())),
        cleanup_error: Some(Error::ContainerDelete("busy".to_string())),
    });
}

#[test]
fn history_is_uploaded_before_the_primary_command() {
    let mut c = config(None, None, true);
    c.history_file = Some("/home/me/.zsh_history".to_string());
    let (mut context, action) = up(c);
    assert_eq!(action, step("/bin/sudo /bin/pacman -Syu --noconfirm"));
    assert_eq!(
        context.advance(ran(0, "")),
        Action::ReadHistory { host_file: "/home/me/.zsh_history".to_string() }
    );
    assert_eq!(context.phase(), Phase::ReadingHistory);
    let action = context.advance(Reply::Contents(b"ls\n".to_vec()));
    assert_eq!(action, Action::UploadArchive {
        container: "c1".to_string(),
        directory: "/home/tempsystem".to_string(),
        archive: build_archive(b".zsh_history", b"ls\n").unwrap(),
    });
    assert_eq!(context.phase(), Phase::UploadingHistory);
    assert_eq!(context.advance(Reply::Done), primary("SHOW_WELCOME=true /usr/bin/zsh"));
}

#[test]
fn history_failures_abort_the_session() {
    let mut c = config(None, None, false);
    c.history_file = Some("h".to_string());
    let (mut context, action) = up(c.clone());
    assert_eq!(action, Action::ReadHistory { host_file: "h".to_string() });
    assert_eq!(context.advance(Reply::Failed("denied".to_string())), remove());
    assert_eq!(
        context.advance(Reply::Done),
        finish(SessionOutcome::Failed(Error::HistoryArchive("denied".to_string())))
    );
    let (mut context, _) = up(c);
    context.advance(Reply::Contents(Vec::new()));
    assert_eq!(context.advance(Reply::Failed("no space".to_string())), remove());
    assert_eq!(
        context.advance(Reply::Done),
        finish(SessionOutcome::Failed(Error::ArchiveUpload("no space".to_string())))
    );
}

#[test]
fn unexpected_reply_fails_the_session() {
    let mut context = connected();
    assert_eq!(context.advance(Reply::Done), finish(SessionOutcome::Failed(Error::UnexpectedReply)));
    let (mut context, _) = up(config(None, None, false));
    assert_eq!(context.advance(Reply::Done), remove());
    assert_eq!(context.advance(Reply::Done), finish(SessionOutcome::Failed(Error::UnexpectedReply)));
    let (mut context, _) = up(config(None, None, false));
    assert_eq!(context.perform_all_enter(config(None, None, false)), remove());
    assert_eq!(context.outcome(), &SessionOutcome::Failed(Error::UnexpectedReply));
    assert_eq!(
        context.perform_all_enter(config(None, None, false)),
        finish(SessionOutcome::Failed(Error::UnexpectedReply))
    );
}

#[test]
fn exit_status_of_each_outcome() {
    assert_eq!(SessionOutcome::Exited(0).exit_status(), 0);
    assert_eq!(SessionOutcome::Exited(3).exit_status(), 3);
    assert_eq!(SessionOutcome::Exited(255).exit_status(), 255);
    assert_eq!(SessionOutcome::Exited(256).exit_status(), 0);
    assert_eq!(SessionOutcome::Exited(257).exit_status(), 1);
    assert_eq!(SessionOutcome::Exited(-1).exit_status(), 255);
    assert_eq!(SessionOutcome::Exited(i64::MIN).exit_status(), 0);
    assert_eq!(SessionOutcome::Exited(i64::MAX).exit_status(), 255);
    assert_eq!(SessionOutcome::Failed(Error::NotConnected).exit_status(), 1);
    assert_eq!(SessionOutcome::Interrupted.exit_status(), 0);
    let o = SessionOutcome::Failed(Error::Connection("x".to_string()));
    assert_eq!(o.clone(), o);
}

fn shown(context: &Context) -> Option<(usize, usize, String)> {
    context.progress().map(|Progress { position, total, message }| (position, total, message))
}

fn show(position: usize, total: usize, message: &str) -> Option<(usize, usize, String)> {
    Some((position, total, message.to_string()))
}

#[test]
fn progress_follows_the_steps() {
    let mut c = config(Some("git vim"), Some("paru"), true);
    c.history_file = Some("h".to_string());
    assert_eq!(c.provisioning.total_steps(), 9);
    let mut context = connected();
    assert_eq!(shown(&context), None);
    context.perform_all_enter(c);
    assert_eq!(shown(&context), show(1, 9, "Downloading image"));
    context.advance(Reply::Done);
    assert_eq!(shown(&context), show(2, 9, "Creating system"));
    context.advance(Reply::ContainerCreated("c1".to_string()));
    assert_eq!(shown(&context), show(3, 9, "Starting system"));
    context.advance(Reply::Done);
    assert_eq!(shown(&context), show(4, 9, "Updating system"));
    context.advance(ran(0, ""));
    assert_eq!(shown(&context), show(5, 9, "Installing git"));
    context.advance(ran(0, ""));
    assert_eq!(shown(&context), show(5, 9, "Installing git"));
    context.advance(ran(0, ""));
    assert_eq!(shown(&context), show(6, 9, "Installing vim"));
    context.advance(ran(0, ""));
    assert_eq!(shown(&context), show(6, 9, "Installing vim"));
    context.advance(ran(0, ""));
    assert_eq!(shown(&context), show(7, 9, "Installing paru from AUR"));
    context.advance(ran(0, ""));
    assert_eq!(shown(&context), show(7, 9, "Installing paru from AUR"));
    context.advance(ran(0, ""));
    assert_eq!(shown(&context), show(8, 9, "Copying history"));
    context.advance(Reply::Contents(Vec::new()));
    assert_eq!(shown(&context), show(8, 9, "Copying history"));
    context.advance(Reply::Done);
    assert_eq!(shown(&context), show(8, 9, "Executing"));
    context.advance(ran(0, ""));
    assert_eq!(shown(&context), show(9, 9, "Deleting system"));
    context.advance(Reply::Done);
    assert_eq!(shown(&context), None);
}

#[test]
fn progress_of_a_plain_session() {
    let (mut context, _) = up(config(None, None, false));
    assert_eq!(shown(&context), show(4, 5, "Executing"));
    context.advance(Reply::RunFailed(Error::ExpectedAttached));
    assert_eq!(shown(&context), show(5, 5, "Deleting system"));
}

#[test]
fn steps_can_run_detached() {
    let mut c = config(None, None, true);
    c.provisioning.detached = true;
    let (_, action) = up(c);
    assert_eq!(action, Action::RunStep {
        container: "c1".to_string(),
        request: ExecRequest {
            command: "/bin/sudo /bin/pacman -Syu --noconfirm".to_string(),
            mode: ExecMode::Detached,
            privileged: true,
        },
    });
}
