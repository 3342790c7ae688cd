use tempsystem::error::Error;
use tempsystem::runner::{
    forward_input, ExecAction, ExecMode, ExecPhase, ExecReply, ExecRequest, ExecResult, ExecRun,
    InputAction, InputEvent,
};

fn request(mode: ExecMode) -> ExecRequest {
    ExecRequest { command: "ls -la".to_string(), mode, privileged: false }
}

fn started(mode: ExecMode) -> ExecRun {
    let (mut run, action) = ExecRun::begin(request(mode));
    assert_eq!(action, ExecAction::Create(request(mode)));
    assert_eq!(run.phase(), ExecPhase::Creating);
    assert_eq!(run.mode(), mode);
    let action = run.advance(ExecReply::Created("e1".to_string()));
    assert_eq!(action, ExecAction::Start {
        id: "e1".to_string(),
        detach: mode == ExecMode::Detached,
        tty: mode == ExecMode::Attached,
    });
    run
}

fn streaming() -> ExecRun {
    let mut run = started(ExecMode::Attached);
    assert_eq!(run.advance(ExecReply::Started { attached: true }), ExecAction::ForwardInput);
    assert_eq!(run.phase(), ExecPhase::Forwarding);
    assert_eq!(run.advance(ExecReply::Done), ExecAction::QuerySize);
    assert_eq!(
        run.advance(ExecReply::Size { cols: 80, rows: 24 }),
        ExecAction::Resize { id: "e1".to_string(), rows: 24, cols: 80 }
    );
    assert_eq!(run.advance(ExecReply::Done), ExecAction::EnterRawMode);
    assert_eq!(run.advance(ExecReply::Done), ExecAction::Read);
    run
}

fn inspect() -> ExecAction {
    ExecAction::Inspect { id: "e1".to_string() }
}

#[test]
fn request_describes_the_exec() {
    let r = ExecRequest { command: "echo hi".to_string(), mode: ExecMode::Attached, privileged: false };
    assert_eq!(r.argv(), vec!["/usr/bin/zsh", "-c", "echo hi"]);
    assert_eq!(r.user(), "tempsystem");
    assert!(r.tty());
    assert!(r.attach_stdin());
    assert!(r.attach_output());
    let r = ExecRequest { command: "x".to_string(), mode: ExecMode::Buffered, privileged: true };
    assert_eq!(r.user(), "root");
    assert!(!r.tty());
    assert!(!r.attach_stdin());
    assert!(r.attach_output());
    let r = ExecRequest { command: "x".to_string(), mode: ExecMode::Detached, privileged: true };
    assert!(!r.tty());
    assert!(!r.attach_stdin());
    assert!(!r.attach_output());
}

#[test]
fn attached_run_streams_and_returns_the_exit_code() {
    let mut run = streaming();
    assert_eq!(run.advance(ExecReply::Chunk(vec![104, 105])), ExecAction::Write(vec![104, 105]));
    assert_eq!(run.advance(ExecReply::Done), ExecAction::Flush);
    assert_eq!(run.advance(ExecReply::Done), ExecAction::Read);
    assert_eq!(run.advance(ExecReply::Chunk(vec![27, 91, 0])), ExecAction::Write(vec![27, 91, 0]));
    assert_eq!(run.advance(ExecReply::Done), ExecAction::Flush);
    assert_eq!(run.advance(ExecReply::Done), ExecAction::Read);
    assert_eq!(run.advance(ExecReply::End), ExecAction::LeaveRawMode);
    assert_eq!(run.advance(ExecReply::Done), inspect());
    assert!(!run.is_finished());
    let action = run.advance(ExecReply::Inspected { exit_code: Some(3), running: Some(false) });
    assert_eq!(action, ExecAction::Finished(ExecResult { exit_code: 3, output: Vec::new() }));
    assert!(run.is_finished());
    assert_eq!(run.phase(), ExecPhase::Finished);
}

#[test]
fn resize_comes_before_the_first_write() {
    let (mut run, first) = ExecRun::begin(request(ExecMode::Attached));
    let replies = vec![
        ExecReply::Created("e1".to_string()),
        ExecReply::Started { attached: true },
        ExecReply::Done,
        ExecReply::Size { cols: 120, rows: 40 },
        ExecReply::Done,
        ExecReply::Done,
        ExecReply::Chunk(vec![1]),
        ExecReply::Done,
        ExecReply::Done,
        ExecReply::Chunk(vec![2]),
    ];
    let mut actions = vec![first];
    for reply in replies {
        actions.push(run.advance(reply));
    }
    let resize = actions.iter().position(|a| matches!(a, ExecAction::Resize { .. }));
    let write = actions.iter().position(|a| matches!(a, ExecAction::Write(_)));
    assert_eq!(resize, Some(4));
    assert_eq!(write, Some(7));
    assert_eq!(actions[2], ExecAction::ForwardInput);
    assert_eq!(actions[4], ExecAction::Resize { id: "e1".to_string(), rows: 40, cols: 120 });
}

#[test]
fn missing_exit_code_is_zero() {
    let mut run = streaming();
    assert_eq!(run.advance(ExecReply::End), ExecAction::LeaveRawMode);
    assert_eq!(run.advance(ExecReply::Done), inspect());
    let action = run.advance(ExecReply::Inspected { exit_code: None, running: Some(false) });
    assert_eq!(action, ExecAction::Finished(ExecResult { exit_code: 0, output: Vec::new() }));
}

#[test]
fn broken_stream_ends_the_output_like_its_end() {
    let mut run = streaming();
    assert_eq!(run.advance(ExecReply::Failed("reset".to_string())), ExecAction::LeaveRawMode);
    assert_eq!(run.advance(ExecReply::Done), inspect());
}

#[test]
fn engine_failures_carry_their_cause() {
    let (mut run, _) = ExecRun::begin(request(ExecMode::Attached));
    assert_eq!(
        run.advance(ExecReply::Failed("no such container".to_string())),
        ExecAction::Failed(Error::ExecCreate("no such container".to_string()))
    );
    assert!(run.is_finished());
    let mut run = started(ExecMode::Attached);
    assert_eq!(
        run.advance(ExecReply::Failed("boom".to_string())),
        ExecAction::Failed(Error::ExecStart("boom".to_string()))
    );
    let mut run = started(ExecMode::Attached);
    run.advance(ExecReply::Started { attached: true });
    run.advance(ExecReply::Done);
    assert_eq!(
        run.advance(ExecReply::Failed("not a tty".to_string())),
        ExecAction::Failed(Error::TerminalSize("not a tty".to_string()))
    );
    let mut run = started(ExecMode::Attached);
    run.advance(ExecReply::Started { attached: true });
    run.advance(ExecReply::Done);
    run.advance(ExecReply::Size { cols: 1, rows: 2 });
    assert_eq!(
        run.advance(ExecReply::Failed("r".to_string())),
        ExecAction::Failed(Error::ExecResize("r".to_string()))
    );
    let mut run = started(ExecMode::Attached);
    run.advance(ExecReply::Started { attached: true });
    run.advance(ExecReply::Done);
    run.advance(ExecReply::Size { cols: 1, rows: 2 });
    run.advance(ExecReply::Done);
    assert_eq!(
        run.advance(ExecReply::Failed("raw".to_string())),
        ExecAction::Failed(Error::Rawmode("raw".to_string()))
    );
    let mut run = streaming();
    run.advance(ExecReply::End);
    run.advance(ExecReply::Done);
    assert_eq!(
        run.advance(ExecReply::Failed("i".to_string())),
        ExecAction::Failed(Error::ExecInspect("i".to_string()))
    );
}

#[test]
fn protocol_mismatch_is_reported() {
    let mut run = started(ExecMode::Attached);
    assert_eq!(
        run.advance(ExecReply::Started { attached: false }),
        ExecAction::Failed(Error::ExpectedAttached)
    );
    let mut run = started(ExecMode::Buffered);
    assert_eq!(
        run.advance(ExecReply::Started { attached: false }),
        ExecAction::Failed(Error::ExpectedAttached)
    );
    let mut run = started(ExecMode::Detached);
    assert_eq!(
        run.advance(ExecReply::Started { attached: true }),
        ExecAction::Failed(Error::ExpectedDetached)
    );
}

#[test]
fn write_failure_leaves_raw_mode_before_it_is_reported() {
    let mut run = streaming();
    run.advance(ExecReply::Chunk(vec![1]));
    assert_eq!(run.advance(ExecReply::Failed("pipe".to_string())), ExecAction::LeaveRawMode);
    assert_eq!(
        run.advance(ExecReply::Done),
        ExecAction::Failed(Error::StdoutWrite("pipe".to_string()))
    );
    assert!(run.is_finished());
    let mut run = streaming();
    run.advance(ExecReply::Chunk(vec![1]));
    run.advance(ExecReply::Done);
    assert_eq!(run.advance(ExecReply::Failed("full".to_string())), ExecAction::LeaveRawMode);
    assert_eq!(
        run.advance(ExecReply::Failed("also".to_string())),
        ExecAction::Failed(Error::StdoutFlush("full".to_string()))
    );
}

#[test]
fn failure_to_leave_raw_mode_is_fatal() {
    let mut run = streaming();
    assert_eq!(run.advance(ExecReply::End), ExecAction::LeaveRawMode);
    assert_eq!(
        run.advance(ExecReply::Failed("stuck".to_string())),
        ExecAction::Failed(Error::Rawmode("stuck".to_string()))
    );
}

#[test]
fn buffered_run_gathers_the_output() {
    let mut run = started(ExecMode::Buffered);
    assert_eq!(run.advance(ExecReply::Started { attached: true }), ExecAction::Read);
    assert_eq!(run.advance(ExecReply::Chunk(vec![101, 114])), ExecAction::Read);
    assert_eq!(run.advance(ExecReply::Chunk(Vec::new())), ExecAction::Read);
    assert_eq!(run.advance(ExecReply::Chunk(vec![114, 10])), ExecAction::Read);
    assert_eq!(run.advance(ExecReply::End), inspect());
    let action = run.advance(ExecReply::Inspected { exit_code: Some(1), running: Some(false) });
    assert_eq!(
        action,
        ExecAction::Finished(ExecResult { exit_code: 1, output: vec![101, 114, 114, 10] })
    );
}

#[test]
fn detached_run_polls_until_the_command_has_ended() {
    let mut run = started(ExecMode::Detached);
    assert_eq!(run.advance(ExecReply::Started { attached: false }), inspect());
    assert_eq!(run.phase(), ExecPhase::Polling);
    assert_eq!(
        run.advance(ExecReply::Inspected { exit_code: None, running: Some(true) }),
        ExecAction::Sleep { millis: 300 }
    );
    assert_eq!(run.advance(ExecReply::Done), inspect());
    assert_eq!(
        run.advance(ExecReply::Inspected { exit_code: None, running: Some(true) }),
        ExecAction::Sleep { millis: 300 }
    );
    assert_eq!(run.advance(ExecReply::Done), inspect());
    assert_eq!(run.advance(ExecReply::Inspected { exit_code: Some(9), running: Some(false) }), inspect());
    assert_eq!(run.phase(), ExecPhase::Inspecting);
    assert_eq!(
        run.advance(ExecReply::Inspected { exit_code: Some(7), running: Some(false) }),
        ExecAction::Finished(ExecResult { exit_code: 7, output: Vec::new() })
    );
    let mut run = started(ExecMode::Detached);
    run.advance(ExecReply::Started { attached: false });
    assert_eq!(
        run.advance(ExecReply::Failed("gone".to_string())),
        ExecAction::Failed(Error::ExecInspect("gone".to_string()))
    );
    let mut run = started(ExecMode::Detached);
    run.advance(ExecReply::Started { attached: false });
    assert_eq!(
        run.advance(ExecReply::Inspected { exit_code: Some(0), running: None }),
        ExecAction::Failed(Error::UnexpectedReply)
    );
}

#[test]
fn unexpected_reply_fails_the_run() {
    let (mut run, _) = ExecRun::begin(request(ExecMode::Buffered));
    assert_eq!(run.advance(ExecReply::Done), ExecAction::Failed(Error::UnexpectedReply));
    assert_eq!(run.advance(ExecReply::Done), ExecAction::Failed(Error::UnexpectedReply));
    let mut run = streaming();
    assert_eq!(run.advance(ExecReply::Done), ExecAction::LeaveRawMode);
    assert_eq!(run.advance(ExecReply::Done), ExecAction::Failed(Error::UnexpectedReply));
    let mut run = started(ExecMode::Detached);
    run.advance(ExecReply::Started { attached: false });
    run.advance(ExecReply::Inspected { exit_code: None, running: Some(true) });
    assert_eq!(run.advance(ExecReply::End), ExecAction::Failed(Error::UnexpectedReply));
}

#[test]
fn input_is_forwarded_until_a_write_fails() {
    assert_eq!(forward_input(InputEvent::Byte(13)), InputAction::Write(13));
    assert_eq!(forward_input(InputEvent::Byte(0)), InputAction::Write(0));
    assert_eq!(forward_input(InputEvent::Idle), InputAction::Yield);
    assert_eq!(forward_input(InputEvent::Written), InputAction::Yield);
    assert_eq!(
        forward_input(InputEvent::WriteFailed("closed".to_string())),
        InputAction::Stop { cause: "closed".to_string() }
    );
}
