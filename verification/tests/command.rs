use devenv_provision::command::{Capture, CapturePhase, ChannelAction, ChannelEvent};
use devenv_provision::error::ErrorKind;
use devenv_provision::session::SecureSession;

fn authenticated() -> SecureSession {
    let mut session = SecureSession::new();
    session.on_connect(true).unwrap();
    session.on_authenticate(true).unwrap();
    session
}

#[test]
fn run_prepares_the_command_as_given() {
    let session = authenticated();
    let request = session.run("nix-shell '<home-manager>' -A install").unwrap();
    assert_eq!(request.command_line(), "nix-shell '<home-manager>' -A install");
}

#[test]
fn run_needs_an_authenticated_session() {
    let mut session = SecureSession::new();
    assert_eq!(session.run("true").err(), Some(ErrorKind::ExecError));
    session.on_connect(true).unwrap();
    assert_eq!(session.run("true").err(), Some(ErrorKind::ExecError));
    session.close();
    assert_eq!(session.run("true").err(), Some(ErrorKind::SessionClosedError));
}

#[test]
fn output_is_drained_before_the_close_is_awaited() {
    let capture = Capture::new(1000);
    assert_eq!(capture.phase(), CapturePhase::Draining);
    assert_eq!(capture.action(), ChannelAction::Read);
    let capture = capture.on_event(ChannelEvent::Data(b"hello ".to_vec()));
    assert_eq!(capture.action(), ChannelAction::Read);
    let capture = capture.on_event(ChannelEvent::Data(b"world\n".to_vec()));
    assert_eq!(capture.action(), ChannelAction::Read);
    let capture = capture.on_event(ChannelEvent::EndOfStream);
    assert_eq!(capture.phase(), CapturePhase::Waiting);
    assert_eq!(capture.action(), ChannelAction::WaitClose);
    let capture = capture.on_event(ChannelEvent::Closed(0));
    assert_eq!(capture.phase(), CapturePhase::Exited { status: 0 });
    assert_eq!(capture.action(), ChannelAction::Finish);
    let result = capture.finish().unwrap();
    assert_eq!(result.exit_status, 0);
    assert_eq!(result.output, "hello world\n");
}

#[test]
fn exit_status_is_handed_on() {
    let capture = Capture::new(10)
        .on_event(ChannelEvent::EndOfStream)
        .on_event(ChannelEvent::Closed(127));
    let result = capture.finish().unwrap();
    assert_eq!(result.exit_status, 127);
    assert_eq!(result.output, "");
}

#[test]
fn character_split_over_two_reads_is_put_together() {
    let bytes = "é".as_bytes().to_vec();
    let capture = Capture::new(10)
        .on_event(ChannelEvent::Data(vec![bytes[0]]))
        .on_event(ChannelEvent::Data(vec![bytes[1]]))
        .on_event(ChannelEvent::EndOfStream)
        .on_event(ChannelEvent::Closed(0));
    assert_eq!(capture.finish().unwrap().output, "é");
}

#[test]
fn output_that_is_no_text_fails_the_command() {
    let capture = Capture::new(10)
        .on_event(ChannelEvent::Data(vec![0xff, 0xfe]))
        .on_event(ChannelEvent::EndOfStream)
        .on_event(ChannelEvent::Closed(0));
    assert_eq!(capture.finish().err(), Some(ErrorKind::ExecError));
}

#[test]
fn close_before_end_of_stream_breaks_the_capture() {
    let capture = Capture::new(10).on_event(ChannelEvent::Closed(0));
    assert_eq!(
        capture.phase(),
        CapturePhase::Abandoned {
            cause: ErrorKind::ExecError
        }
    );
    assert_eq!(capture.action(), ChannelAction::Abort);
    assert_eq!(capture.finish().err(), Some(ErrorKind::ExecError));
}

#[test]
fn data_after_end_of_stream_breaks_the_capture() {
    let capture = Capture::new(10)
        .on_event(ChannelEvent::EndOfStream)
        .on_event(ChannelEvent::Data(vec![1]));
    assert_eq!(
        capture.phase(),
        CapturePhase::Abandoned {
            cause: ErrorKind::ExecError
        }
    );
    let again = Capture::new(10)
        .on_event(ChannelEvent::EndOfStream)
        .on_event(ChannelEvent::EndOfStream);
    assert_eq!(again.action(), ChannelAction::Abort);
}

#[test]
fn broken_channel_fails_the_command() {
    let capture = Capture::new(10)
        .on_event(ChannelEvent::Data(b"partial".to_vec()))
        .on_event(ChannelEvent::Broken);
    assert_eq!(capture.action(), ChannelAction::Abort);
    assert_eq!(capture.finish().err(), Some(ErrorKind::ExecError));
}

#[test]
fn wait_is_bounded() {
    let capture = Capture::new(100).on_event(ChannelEvent::Idle(60));
    assert_eq!(capture.phase(), CapturePhase::Draining);
    let capture = capture.on_event(ChannelEvent::Idle(40));
    assert_eq!(capture.phase(), CapturePhase::Draining);
    let capture = capture.on_event(ChannelEvent::Idle(1));
    assert_eq!(
        capture.phase(),
        CapturePhase::Abandoned {
            cause: ErrorKind::ExecError
        }
    );
    assert_eq!(capture.finish().err(), Some(ErrorKind::ExecError));
}

#[test]
fn wait_for_close_is_bounded_too() {
    let capture = Capture::new(100)
        .on_event(ChannelEvent::Idle(50))
        .on_event(ChannelEvent::EndOfStream)
        .on_event(ChannelEvent::Idle(50));
    assert_eq!(capture.phase(), CapturePhase::Waiting);
    let capture = capture.on_event(ChannelEvent::Idle(u64::MAX));
    assert_eq!(capture.action(), ChannelAction::Abort);
}

#[test]
fn limit_of_zero_allows_no_idle_time() {
    let capture = Capture::new(0).on_event(ChannelEvent::Idle(0));
    assert_eq!(capture.phase(), CapturePhase::Draining);
    let capture = capture.on_event(ChannelEvent::Idle(1));
    assert_eq!(capture.action(), ChannelAction::Abort);
}

#[test]
fn cancel_reaches_a_command_in_any_phase() {
    let draining = Capture::new(10).on_event(ChannelEvent::Cancelled);
    assert_eq!(
        draining.phase(),
        CapturePhase::Abandoned {
            cause: ErrorKind::Cancelled
        }
    );
    assert_eq!(draining.finish().err(), Some(ErrorKind::Cancelled));
    let waiting = Capture::new(10)
        .on_event(ChannelEvent::EndOfStream)
        .on_event(ChannelEvent::Cancelled);
    assert_eq!(waiting.action(), ChannelAction::Abort);
    assert_eq!(waiting.finish().err(), Some(ErrorKind::Cancelled));
}

#[test]
fn ended_capture_takes_no_more_reports() {
    let exited = Capture::new(10)
        .on_event(ChannelEvent::Data(b"done".to_vec()))
        .on_event(ChannelEvent::EndOfStream)
        .on_event(ChannelEvent::Closed(3))
        .on_event(ChannelEvent::Data(b"late".to_vec()))
        .on_event(ChannelEvent::Cancelled)
        .on_event(ChannelEvent::Broken);
    assert_eq!(exited.phase(), CapturePhase::Exited { status: 3 });
    let result = exited.finish().unwrap();
    assert_eq!(result.exit_status, 3);
    assert_eq!(result.output, "done");
    let abandoned = Capture::new(10)
        .on_event(ChannelEvent::Cancelled)
        .on_event(ChannelEvent::EndOfStream)
        .on_event(ChannelEvent::Closed(0));
    assert_eq!(abandoned.finish().err(), Some(ErrorKind::Cancelled));
}

#[test]
fn unfinished_capture_has_no_result() {
    assert_eq!(Capture::new(10).finish().err(), Some(ErrorKind::ExecError));
    let waiting = Capture::new(10).on_event(ChannelEvent::EndOfStream);
    assert_eq!(waiting.finish().err(), Some(ErrorKind::ExecError));
}
