//! Running a command on the remote host and capturing what it prints.
//!
//! A command is followed through three phases: its output is drained to
//! the end of the stream, then the close of the channel is awaited, then
//! the exit status is known. The time spent waiting is bounded, and the
//! caller can give a command up at any point.

use vstd::prelude::*;
use vstd::utf8::{decode_utf8, valid_utf8};
use crate::error::ErrorKind;
use crate::session::{admission, Operation, SecureSession};

verus! {

/// A command that was admitted for running on a session.
#[derive(Debug)]
pub struct CommandRequest {
    command_line: String,
}

impl View for CommandRequest {
    type V = Seq<char>;

    closed spec fn view(&self) -> Seq<char> {
        self.command_line@
    }
}

impl CommandRequest {
    /// The command line, as it goes to the remote shell.
    pub fn command_line(&self) -> (command_line: &str)
        ensures
            command_line@ == self@,
    {
        self.command_line.as_str()
    }
}

/// What a command left behind, as plain values.
pub struct CommandResultView {
    pub exit_status: i32,
    pub output: Seq<char>,
}

/// The exit status of a command and all that it printed. The output is
/// text that nothing here looks into.
#[derive(Debug)]
pub struct CommandResult {
    pub exit_status: i32,
    pub output: String,
}

impl View for CommandResult {
    type V = CommandResultView;

    open spec fn view(&self) -> CommandResultView {
        CommandResultView { exit_status: self.exit_status, output: self.output@ }
    }
}

impl SecureSession {
    /// Prepares the running of a command. The session has to be
    /// authenticated: on a closed session the answer is
    /// `SessionClosedError`, on one that is not ready yet `ExecError`.
    pub fn run(&self, command_line: &str) -> (prepared: Result<CommandRequest, ErrorKind>)
        ensures
            match admission(self@, Operation::Run) {
                Ok(()) => prepared is Ok && prepared->Ok_0@ == command_line@,
                Err(kind) => prepared == Err::<CommandRequest, ErrorKind>(kind),
            },
    {
        match self.permit(Operation::Run) {
            Err(kind) => Err(kind),
            Ok(()) => Ok(CommandRequest { command_line: command_line.to_owned() }),
        }
    }
}

/// How far the capture of a command has come.
#[derive(Clone, Copy, Debug, PartialEq, Eq, Structural)]
pub enum CapturePhase {
    /// Output is being read; the end of the stream was not seen yet.
    Draining,
    /// All output was read; the channel has not reported its close yet.
    Waiting,
    /// The command ended with this exit status.
    Exited { status: i32 },
    /// The command was given up for this reason.
    Abandoned { cause: ErrorKind },
}

/// What the caller is to do next with the channel.
#[derive(Clone, Copy, Debug, PartialEq, Eq, Structural)]
pub enum ChannelAction {
    /// Read more output.
    Read,
    /// Wait for the channel to report its close.
    WaitClose,
    /// Give the channel up: the command will not be followed further.
    Abort,
    /// Nothing: the command has ended.
    Finish,
}

/// What the channel reported, as plain values.
pub enum ChannelEventView {
    Data(Seq<u8>),
    EndOfStream,
    Closed(i32),
    Idle(u64),
    Broken,
    Cancelled,
}

/// What the channel reported since the last action.
#[derive(Debug)]
pub enum ChannelEvent {
    /// These bytes of output arrived.
    Data(Vec<u8>),
    /// The output stream came to its end.
    EndOfStream,
    /// The channel closed, and the command's exit status is this.
    Closed(i32),
    /// Nothing arrived for this many milliseconds.
    Idle(u64),
    /// The channel failed.
    Broken,
    /// The caller wants the command given up.
    Cancelled,
}

impl View for ChannelEvent {
    type V = ChannelEventView;

    open spec fn view(&self) -> ChannelEventView {
        match self {
            ChannelEvent::Data(bytes) => ChannelEventView::Data(bytes@),
            ChannelEvent::EndOfStream => ChannelEventView::EndOfStream,
            ChannelEvent::Closed(status) => ChannelEventView::Closed(*status),
            ChannelEvent::Idle(elapsed) => ChannelEventView::Idle(*elapsed),
            ChannelEvent::Broken => ChannelEventView::Broken,
            ChannelEvent::Cancelled => ChannelEventView::Cancelled,
        }
    }
}

/// The capture of one command, as plain values.
pub struct CaptureView {
    pub phase: CapturePhase,
    /// The output read so far, in the order of its arrival.
    pub output: Seq<u8>,
    /// The milliseconds spent waiting so far.
    pub waited: u64,
    /// The milliseconds that may be spent waiting in all.
    pub limit: u64,
}

/// Whether the capture still follows the command.
pub open spec fn is_running(phase: CapturePhase) -> bool {
    phase == CapturePhase::Draining || phase == CapturePhase::Waiting
}

/// The capture after the channel reported that nothing arrived for
/// `elapsed` milliseconds: the wait goes on while the limit allows it.
pub open spec fn after_idle(capture: CaptureView, elapsed: u64) -> CaptureView {
    if capture.waited + elapsed <= capture.limit {
        CaptureView { waited: (capture.waited + elapsed) as u64, ..capture }
    } else {
        CaptureView { phase: CapturePhase::Abandoned { cause: ErrorKind::ExecError }, ..capture }
    }
}

/// The capture after one report of the channel.
pub open spec fn capture_step(capture: CaptureView, event: ChannelEventView) -> CaptureView {
    let broken = CaptureView {
        phase: CapturePhase::Abandoned { cause: ErrorKind::ExecError },
        ..capture
    };
    if !is_running(capture.phase) {
        capture
    } else {
        match event {
            ChannelEventView::Cancelled => CaptureView {
                phase: CapturePhase::Abandoned { cause: ErrorKind::Cancelled },
                ..capture
            },
            ChannelEventView::Idle(elapsed) => after_idle(capture, elapsed),
            ChannelEventView::Broken => broken,
            ChannelEventView::Data(bytes) => if capture.phase == CapturePhase::Draining {
                CaptureView { output: capture.output + bytes, ..capture }
            } else {
                broken
            },
            ChannelEventView::EndOfStream => if capture.phase == CapturePhase::Draining {
                CaptureView { phase: CapturePhase::Waiting, ..capture }
            } else {
                broken
            },
            ChannelEventView::Closed(status) => if capture.phase == CapturePhase::Waiting {
                CaptureView { phase: CapturePhase::Exited { status }, ..capture }
            } else {
                broken
            },
        }
    }
}

/// What the caller is to do in a phase.
pub open spec fn capture_action(phase: CapturePhase) -> ChannelAction {
    match phase {
        CapturePhase::Draining => ChannelAction::Read,
        CapturePhase::Waiting => ChannelAction::WaitClose,
        CapturePhase::Exited { .. } => ChannelAction::Finish,
        CapturePhase::Abandoned { .. } => ChannelAction::Abort,
    }
}

/// What a capture comes to: the result of a command that ended and whose
/// output is text, and a failure in every other case.
pub open spec fn capture_result(capture: CaptureView) -> Result<CommandResultView, ErrorKind> {
    match capture.phase {
        CapturePhase::Exited { status } => if valid_utf8(capture.output) {
            Ok(CommandResultView { exit_status: status, output: decode_utf8(capture.output) })
        } else {
            Err(ErrorKind::ExecError)
        },
        CapturePhase::Abandoned { cause } => Err(cause),
        _ => Err(ErrorKind::ExecError),
    }
}

/// `String::from_utf8` of std: the text that the bytes encode in UTF-8, or
/// nothing where they encode none.
#[verifier::external_body]
fn text_of(bytes: Vec<u8>) -> (text: Option<String>)
    ensures
        valid_utf8(bytes@) ==> text is Some && text->Some_0@ == decode_utf8(bytes@),
        !valid_utf8(bytes@) ==> text is None,
{
    String::from_utf8(bytes).ok()
}

/// The capture of one command.
#[derive(Debug)]
pub struct Capture {
    phase: CapturePhase,
    output: Vec<u8>,
    waited: u64,
    limit: u64,
}

impl View for Capture {
    type V = CaptureView;

    closed spec fn view(&self) -> CaptureView {
        CaptureView {
            phase: self.phase,
            output: self.output@,
            waited: self.waited,
            limit: self.limit,
        }
    }
}

impl Capture {
    #[verifier::type_invariant]
    spec fn within_limit(&self) -> bool {
        self.waited <= self.limit
    }

    /// The capture of a command that was just started, with the number of
    /// milliseconds that may be spent waiting for it.
    pub fn new(limit: u64) -> (capture: Capture)
        ensures
            capture@ == (CaptureView {
                phase: CapturePhase::Draining,
                output: Seq::empty(),
                waited: 0,
                limit,
            }),
    {
        Capture { phase: CapturePhase::Draining, output: Vec::new(), waited: 0, limit }
    }

    /// The phase of the capture.
    pub fn phase(&self) -> (phase: CapturePhase)
        ensures
            phase == self@.phase,
            self@.waited <= self@.limit,
    {
        proof {
            use_type_invariant(self);
        }
        self.phase
    }

    /// What the caller is to do next with the channel.
    pub fn action(&self) -> (action: ChannelAction)
        ensures
            action == capture_action(self@.phase),
    {
        match self.phase {
            CapturePhase::Draining => ChannelAction::Read,
            CapturePhase::Waiting => ChannelAction::WaitClose,
            CapturePhase::Exited { .. } => ChannelAction::Finish,
            CapturePhase::Abandoned { .. } => ChannelAction::Abort,
        }
    }

    /// Takes note of what the channel reported.
    pub fn on_event(self, event: ChannelEvent) -> (next: Capture)
        ensures
            next@ == capture_step(self@, event@),
    {
        proof {
            use_type_invariant(&self);
        }
        let Capture { phase, output, waited, limit } = self;
        let running = phase == CapturePhase::Draining || phase == CapturePhase::Waiting;
        if !running {
            return Capture { phase, output, waited, limit };
        }
        let broken = CapturePhase::Abandoned { cause: ErrorKind::ExecError };
        match event {
            ChannelEvent::Cancelled => Capture {
                phase: CapturePhase::Abandoned { cause: ErrorKind::Cancelled },
                output,
                waited,
                limit,
            },
            ChannelEvent::Idle(elapsed) => {
                if elapsed <= limit - waited {
                    Capture { phase, output, waited: waited + elapsed, limit }
                } else {
                    Capture { phase: broken, output, waited, limit }
                }
            },
            ChannelEvent::Broken => Capture { phase: broken, output, waited, limit },
            ChannelEvent::Data(bytes) => {
                if phase == CapturePhase::Draining {
                    let mut output = output;
                    let ghost before = output@;
                    output.extend_from_slice(bytes.as_slice());
                    assert(output@ == before + bytes@);
                    Capture { phase, output, waited, limit }
                } else {
                    Capture { phase: broken, output, waited, limit }
                }
            },
            ChannelEvent::EndOfStream => {
                if phase == CapturePhase::Draining {
                    Capture { phase: CapturePhase::Waiting, output, waited, limit }
                } else {
                    Capture { phase: broken, output, waited, limit }
                }
            },
            ChannelEvent::Closed(status) => {
                if phase == CapturePhase::Waiting {
                    Capture { phase: CapturePhase::Exited { status }, output, waited, limit }
                } else {
                    Capture { phase: broken, output, waited, limit }
                }
            },
        }
    }

    /// What the capture came to.
    pub fn finish(self) -> (result: Result<CommandResult, ErrorKind>)
        ensures
            match capture_result(self@) {
                Ok(expected) => result is Ok && result->Ok_0@ == expected,
                Err(kind) => result == Err::<CommandResult, ErrorKind>(kind),
            },
    {
        let Capture { phase, output, waited: _, limit: _ } = self;
        match phase {
            CapturePhase::Exited { status } => match text_of(output) {
                Some(text) => Ok(CommandResult { exit_status: status, output: text }),
                None => Err(ErrorKind::ExecError),
            },
            CapturePhase::Abandoned { cause } => Err(cause),
            _ => Err(ErrorKind::ExecError),
        }
    }
}

/// The close of the channel is awaited only after the end of the output
/// was seen: the waiting phase is entered from the draining phase, on the
/// end of the stream, and in no other way.
pub proof fn lemma_wait_follows_end_of_stream(capture: CaptureView, event: ChannelEventView)
    ensures
        capture_step(capture, event).phase == CapturePhase::Waiting ==> capture.phase
            == CapturePhase::Waiting || (capture.phase == CapturePhase::Draining
            && event is EndOfStream),
        capture_step(capture, event).phase is Exited ==> capture.phase is Exited || (capture.phase
            == CapturePhase::Waiting && event is Closed),
{
}

/// Output is never lost or reordered: whatever is reported, the output
/// read before stays at the front of the output read afterwards.
pub proof fn lemma_output_only_grows(capture: CaptureView, event: ChannelEventView)
    ensures
        capture.output.is_prefix_of(capture_step(capture, event).output),
        capture_step(capture, event).limit == capture.limit,
{
    let next = capture_step(capture, event);
    assert(capture.output.is_prefix_of(next.output)) by {
        if next.output != capture.output {
            let bytes = event->Data_0;
            assert(next.output == capture.output + bytes);
        }
    }
}

/// The wait is bounded: the time spent waiting never passes the limit, and
/// a report of idle time that would pass it ends the capture.
pub proof fn lemma_wait_is_bounded(capture: CaptureView, elapsed: u64)
    requires
        capture.waited <= capture.limit,
        is_running(capture.phase),
    ensures
        capture_step(capture, ChannelEventView::Idle(elapsed)).waited <= capture.limit,
        capture.waited + elapsed > capture.limit ==> capture_step(
            capture,
            ChannelEventView::Idle(elapsed),
        ).phase == (CapturePhase::Abandoned { cause: ErrorKind::ExecError }),
        capture.waited + elapsed <= capture.limit ==> capture_step(
            capture,
            ChannelEventView::Idle(elapsed),
        ).phase == capture.phase,
{
}

/// A command that was given up or has ended stays so.
pub proof fn lemma_ended_capture_stays(capture: CaptureView, event: ChannelEventView)
    requires
        !is_running(capture.phase),
    ensures
        capture_step(capture, event) == capture,
{
}

/// Cancelling reaches a command in whatever phase it is followed.
pub proof fn lemma_cancel_ends_capture(capture: CaptureView)
    requires
        is_running(capture.phase),
    ensures
        capture_step(capture, ChannelEventView::Cancelled).phase == (CapturePhase::Abandoned {
            cause: ErrorKind::Cancelled,
        }),
        capture_action(capture_step(capture, ChannelEventView::Cancelled).phase)
            == ChannelAction::Abort,
{
}

} // verus!
