//! One provisioning run, as a state machine.
//!
//! A run never touches the network or the disk. It tells its caller what
//! to do next, the caller does it and reports how it went, and the run
//! moves on. The steps come in a fixed order, none is tried twice, and
//! whatever happens the last thing that a run asks for, once a connection
//! was opened, is to close it.

use vstd::prelude::*;
use vstd::string::{StrSliceExecFns, StringExecFns};
use vstd::utf8::encode_utf8;
use crate::command::{CommandResult, CommandResultView};
use crate::error::{kind_text, ErrorKind};
use crate::git::{clone_command, clone_command_of, clone_plan, plan_clone};
use crate::git::{SourceReport, SourceReportView};
use crate::render::{names_of, render_config, rendered};
use crate::session::{is_open, SecureSession, SessionState};
use crate::transfer::{TransferSpec, TransferView};

verus! {

/// The port of the secure shell where none is named.
pub const DEFAULT_PORT: u16 = 22;

/// Where the configuration goes on the remote host.
pub const CONFIG_DESTINATION: &'static str = "/home/ubuntu/.config/home-manager/home.nix";

/// Where the credential goes on the remote host.
pub const KEY_DESTINATION: &'static str = "/home/ubuntu/.ssh/id_rsa";

/// The command that brings the remote host to the configuration.
pub const INSTALL_COMMAND: &'static str = "nix-shell '<home-manager>' -A install";

/// The permission bits of the files that a run uploads.
pub const FILE_MODE: i32 = 0o644;

/// The host that a run provisions, as plain values.
pub struct TargetView {
    pub hostname: Seq<char>,
    pub port: u16,
    pub username: Seq<char>,
    pub key_path: Seq<char>,
}

/// The host that a run provisions, and how to get in.
#[derive(Debug)]
pub struct RemoteTarget {
    pub hostname: String,
    pub port: u16,
    /// The user on the remote host.
    pub username: String,
    /// The path of the local file that holds the private key.
    pub key_path: String,
}

impl View for RemoteTarget {
    type V = TargetView;

    open spec fn view(&self) -> TargetView {
        TargetView {
            hostname: self.hostname@,
            port: self.port,
            username: self.username@,
            key_path: self.key_path@,
        }
    }
}

impl RemoteTarget {
    /// A target on the default port.
    pub fn new(hostname: String, username: String, key_path: String) -> (target: RemoteTarget)
        ensures
            target@ == (TargetView {
                hostname: hostname@,
                port: DEFAULT_PORT,
                username: username@,
                key_path: key_path@,
            }),
    {
        RemoteTarget { hostname, port: DEFAULT_PORT, username, key_path }
    }
}

/// The steps of a run, in their order. Each leads from one state to the
/// next.
#[derive(Clone, Copy, Debug, PartialEq, Eq, Structural)]
pub enum Step {
    /// Read the credential and render the configuration.
    Prepare,
    /// Reach the host.
    Connect,
    /// Present the key.
    Authenticate,
    /// Upload the configuration.
    UploadConfig,
    /// Run the install command to its end, whatever its exit status.
    RunInstall,
    /// Upload the credential.
    UploadKey,
    /// Find out whether the local source is a repository, and its origin.
    CheckGit,
    /// Clone the origin on the remote host.
    CloneRemote,
}

/// The name of a step, for messages to the user.
pub open spec fn step_text(step: Step) -> Seq<char> {
    match step {
        Step::Prepare => "prepare"@,
        Step::Connect => "connect"@,
        Step::Authenticate => "authenticate"@,
        Step::UploadConfig => "upload configuration"@,
        Step::RunInstall => "install"@,
        Step::UploadKey => "upload credential"@,
        Step::CheckGit => "check repository"@,
        Step::CloneRemote => "clone"@,
    }
}

impl Step {
    /// The name of the step.
    pub fn name(&self) -> (name: &'static str)
        ensures
            name@ == step_text(*self),
    {
        match self {
            Step::Prepare => "prepare",
            Step::Connect => "connect",
            Step::Authenticate => "authenticate",
            Step::UploadConfig => "upload configuration",
            Step::RunInstall => "install",
            Step::UploadKey => "upload credential",
            Step::CheckGit => "check repository",
            Step::CloneRemote => "clone",
        }
    }
}

/// Where a run stands.
#[derive(Clone, Copy, Debug, PartialEq, Eq, Structural)]
pub enum RunState {
    Init,
    ConfigRendered,
    Connected,
    Authenticated,
    ConfigUploaded,
    InstallRan,
    KeyUploaded,
    GitChecked,
    ClonedRemote,
    SkippedClone,
    Done,
    /// The run failed at this step, for this reason.
    Failed { step: Step, cause: ErrorKind },
}

/// What the caller is to do next, as plain values.
pub enum ActionView {
    ReadCredential { path: Seq<char> },
    Connect { hostname: Seq<char>, port: u16 },
    Authenticate { username: Seq<char>, key_path: Seq<char> },
    Upload(TransferView),
    Execute(Seq<char>),
    InspectSource { path: Seq<char> },
    Proceed,
    Close,
    Stop,
}

/// What the caller is to do next.
#[derive(Debug)]
pub enum Action {
    /// Read the local file that holds the private key.
    ReadCredential { path: String },
    /// Connect to the host and shake hands.
    Connect { hostname: String, port: u16 },
    /// Authenticate as this user with the key in this file.
    Authenticate { username: String, key_path: String },
    /// Upload this file.
    Upload(TransferSpec),
    /// Run this command and capture its output to the end.
    Execute(String),
    /// Read the repository at this local path.
    InspectSource { path: String },
    /// Nothing to do outside: report that it is done.
    Proceed,
    /// Close the connection.
    Close,
    /// The run is over.
    Stop,
}

impl View for Action {
    type V = ActionView;

    open spec fn view(&self) -> ActionView {
        match self {
            Action::ReadCredential { path } => ActionView::ReadCredential { path: path@ },
            Action::Connect { hostname, port } => ActionView::Connect {
                hostname: hostname@,
                port: *port,
            },
            Action::Authenticate { username, key_path } => ActionView::Authenticate {
                username: username@,
                key_path: key_path@,
            },
            Action::Upload(transfer) => ActionView::Upload(transfer@),
            Action::Execute(command_line) => ActionView::Execute(command_line@),
            Action::InspectSource { path } => ActionView::InspectSource { path: path@ },
            Action::Proceed => ActionView::Proceed,
            Action::Close => ActionView::Close,
            Action::Stop => ActionView::Stop,
        }
    }
}

/// How an action went, as plain values.
pub enum OutcomeView {
    Completed,
    Credential(Seq<u8>),
    Output(CommandResultView),
    Source(SourceReportView),
    Failed,
    Cancelled,
}

/// How an action went.
#[derive(Debug)]
pub enum Outcome {
    /// The action was carried out, and there is nothing to hand back.
    Completed,
    /// The credential was read, and these are its bytes.
    Credential(Vec<u8>),
    /// The command ran to its end, with this exit status and output. The
    /// run looks into neither.
    Output(CommandResult),
    /// The local source was read.
    Source(SourceReport),
    /// The action failed.
    Failed,
    /// The caller gives the run up.
    Cancelled,
}

impl View for Outcome {
    type V = OutcomeView;

    open spec fn view(&self) -> OutcomeView {
        match self {
            Outcome::Completed => OutcomeView::Completed,
            Outcome::Credential(bytes) => OutcomeView::Credential(bytes@),
            Outcome::Output(result) => OutcomeView::Output(result@),
            Outcome::Source(report) => OutcomeView::Source(report@),
            Outcome::Failed => OutcomeView::Failed,
            Outcome::Cancelled => OutcomeView::Cancelled,
        }
    }
}

/// A run, as plain values.
pub struct RunView {
    pub target: TargetView,
    /// The names of the packages, in the order of the build plan.
    pub names: Seq<Seq<char>>,
    /// The local path of the source.
    pub source_path: Seq<char>,
    pub state: RunState,
    pub session: SessionState,
    /// The rendered configuration, empty until it is rendered.
    pub config: Seq<char>,
    /// The bytes of the credential, empty until it is read.
    pub credential: Seq<u8>,
    /// The address to clone, once the local source was found to be a
    /// repository with an origin.
    pub origin: Option<Seq<char>>,
}

/// The step that leaves a state, for the states in which work is left.
pub open spec fn step_from(state: RunState) -> Option<Step> {
    match state {
        RunState::Init => Some(Step::Prepare),
        RunState::ConfigRendered => Some(Step::Connect),
        RunState::Connected => Some(Step::Authenticate),
        RunState::Authenticated => Some(Step::UploadConfig),
        RunState::ConfigUploaded => Some(Step::RunInstall),
        RunState::InstallRan => Some(Step::UploadKey),
        RunState::KeyUploaded => Some(Step::CheckGit),
        RunState::GitChecked => Some(Step::CloneRemote),
        _ => None,
    }
}

/// The state from which a step starts.
pub open spec fn start_of(step: Step) -> RunState {
    match step {
        Step::Prepare => RunState::Init,
        Step::Connect => RunState::ConfigRendered,
        Step::Authenticate => RunState::Connected,
        Step::UploadConfig => RunState::Authenticated,
        Step::RunInstall => RunState::ConfigUploaded,
        Step::UploadKey => RunState::InstallRan,
        Step::CheckGit => RunState::KeyUploaded,
        Step::CloneRemote => RunState::GitChecked,
    }
}

/// The state that a step reaches when it succeeds.
pub open spec fn goal_of(step: Step) -> RunState {
    match step {
        Step::Prepare => RunState::ConfigRendered,
        Step::Connect => RunState::Connected,
        Step::Authenticate => RunState::Authenticated,
        Step::UploadConfig => RunState::ConfigUploaded,
        Step::RunInstall => RunState::InstallRan,
        Step::UploadKey => RunState::KeyUploaded,
        Step::CheckGit => RunState::GitChecked,
        Step::CloneRemote => RunState::ClonedRemote,
    }
}

/// The failure of a step that is its own.
pub open spec fn error_of(step: Step) -> ErrorKind {
    match step {
        Step::Prepare => ErrorKind::MissingCredentialError,
        Step::Connect => ErrorKind::ConnectError,
        Step::Authenticate => ErrorKind::AuthError,
        Step::UploadConfig => ErrorKind::TransferError,
        Step::RunInstall => ErrorKind::ExecError,
        Step::UploadKey => ErrorKind::TransferError,
        Step::CheckGit => ErrorKind::GitError,
        Step::CloneRemote => ErrorKind::ExecError,
    }
}

/// Whether an outcome has the form in which a step reports its success.
pub open spec fn reports_success(step: Step, outcome: OutcomeView) -> bool {
    match step {
        Step::Prepare => outcome is Credential,
        Step::Connect => outcome is Completed,
        Step::Authenticate => outcome is Completed,
        Step::UploadConfig => outcome is Completed,
        Step::RunInstall => outcome is Output,
        Step::UploadKey => outcome is Completed,
        Step::CheckGit => outcome is Source,
        Step::CloneRemote => outcome is Output,
    }
}

/// The state in which the session is while a run is in a state in which
/// work is left.
pub open spec fn session_in(state: RunState) -> SessionState {
    match state {
        RunState::Init => SessionState::Disconnected,
        RunState::ConfigRendered => SessionState::Disconnected,
        RunState::Connected => SessionState::Connected,
        RunState::Done => SessionState::Closed,
        _ => SessionState::Authenticated,
    }
}

/// The upload of the given text to the given place.
pub open spec fn upload_of(destination: Seq<char>, content: Seq<u8>) -> TransferView {
    TransferView { destination, length: content.len() as u64, mode: FILE_MODE, content }
}

/// What a run asks of its caller next.
pub open spec fn pending(run: RunView) -> ActionView {
    match run.state {
        RunState::Init => ActionView::ReadCredential { path: run.target.key_path },
        RunState::ConfigRendered => ActionView::Connect {
            hostname: run.target.hostname,
            port: run.target.port,
        },
        RunState::Connected => ActionView::Authenticate {
            username: run.target.username,
            key_path: run.target.key_path,
        },
        RunState::Authenticated => ActionView::Upload(
            upload_of(CONFIG_DESTINATION@, encode_utf8(run.config)),
        ),
        RunState::ConfigUploaded => ActionView::Execute(INSTALL_COMMAND@),
        RunState::InstallRan => ActionView::Upload(upload_of(KEY_DESTINATION@, run.credential)),
        RunState::KeyUploaded => ActionView::InspectSource { path: run.source_path },
        RunState::GitChecked => match run.origin {
            Some(url) => ActionView::Execute(clone_command_of(url)),
            None => ActionView::Proceed,
        },
        RunState::ClonedRemote => ActionView::Close,
        RunState::SkippedClone => ActionView::Close,
        RunState::Done => ActionView::Stop,
        RunState::Failed { .. } => if is_open(run.session) {
            ActionView::Close
        } else {
            ActionView::Stop
        },
    }
}

/// The run after a step failed. The session stays as it is: closing it is
/// what the run asks for next.
pub open spec fn failed_at(run: RunView, step: Step, cause: ErrorKind) -> RunView {
    RunView { state: RunState::Failed { step, cause }, ..run }
}

/// The run after a step succeeded with the given outcome.
pub open spec fn succeeded_at(run: RunView, step: Step, outcome: OutcomeView) -> RunView {
    match step {
        Step::Prepare => RunView {
            state: RunState::ConfigRendered,
            credential: outcome->Credential_0,
            config: rendered(run.names),
            ..run
        },
        Step::Connect => RunView {
            state: RunState::Connected,
            session: SessionState::Connected,
            ..run
        },
        Step::Authenticate => RunView {
            state: RunState::Authenticated,
            session: SessionState::Authenticated,
            ..run
        },
        Step::CheckGit => match clone_plan(outcome->Source_0) {
            Ok(origin) => RunView { state: RunState::GitChecked, origin, ..run },
            Err(cause) => failed_at(run, step, cause),
        },
        _ => RunView { state: goal_of(step), ..run },
    }
}

/// The run after the caller reported how the pending action went.
pub open spec fn advance(run: RunView, outcome: OutcomeView) -> RunView {
    match run.state {
        RunState::Done => run,
        RunState::Failed { .. } => RunView {
            session: if is_open(run.session) {
                SessionState::Closed
            } else {
                run.session
            },
            ..run
        },
        RunState::ClonedRemote => RunView {
            state: RunState::Done,
            session: SessionState::Closed,
            ..run
        },
        RunState::SkippedClone => RunView {
            state: RunState::Done,
            session: SessionState::Closed,
            ..run
        },
        _ => {
            let step = step_from(run.state)->Some_0;
            if outcome is Cancelled {
                failed_at(run, step, ErrorKind::Cancelled)
            } else if run.state == RunState::GitChecked && run.origin is None {
                RunView { state: RunState::SkippedClone, ..run }
            } else if reports_success(step, outcome) {
                succeeded_at(run, step, outcome)
            } else {
                failed_at(run, step, error_of(step))
            }
        },
    }
}

/// What holds of a run at every moment: the session is in the state that
/// belongs to the state of the run, the configuration is the rendering of
/// the packages once it was rendered, and an address to clone is there
/// exactly from the moment at which the source was found to have one.
pub open spec fn well_formed(run: RunView) -> bool {
    &&& match run.state {
        RunState::Failed { step, .. } => run.session == session_in(start_of(step)) || (is_open(
            session_in(start_of(step)),
        ) && run.session == SessionState::Closed),
        state => run.session == session_in(state),
    }
    &&& match run.state {
        RunState::Init => true,
        RunState::Failed { step, .. } => step != Step::Prepare ==> run.config == rendered(
            run.names,
        ),
        _ => run.config == rendered(run.names),
    }
    &&& match run.state {
        RunState::GitChecked => true,
        RunState::ClonedRemote => run.origin is Some,
        RunState::Done => true,
        RunState::Failed { step, .. } => step != Step::CloneRemote ==> run.origin is None,
        _ => run.origin is None,
    }
    &&& (run.origin matches Some(url) ==> url.len() > 0)
}

/// Whether a run is over: nothing is left to do, not even to close the
/// session.
pub open spec fn is_over(run: RunView) -> bool {
    pending(run) is Stop
}

/// The address to clone, as plain values.
pub open spec fn origin_view(origin: Option<String>) -> Option<Seq<char>> {
    match origin {
        Some(url) => Some(url@),
        None => None,
    }
}

/// The run as it is created: nothing was done yet.
pub open spec fn fresh_run(
    target: TargetView,
    names: Seq<Seq<char>>,
    source_path: Seq<char>,
) -> RunView {
    RunView {
        target,
        names,
        source_path,
        state: RunState::Init,
        session: SessionState::Disconnected,
        config: Seq::empty(),
        credential: Seq::empty(),
        origin: None,
    }
}

/// The code with which a program ends whose run stands in this state: zero
/// after a run that came to its end, and one after a failure or where the
/// run was left before its end.
pub open spec fn exit_code_of(state: RunState) -> i32 {
    if state == RunState::Done {
        0
    } else {
        1
    }
}

/// What the user is told of a failed run: the host, the local source, the
/// step that failed and why. Nothing of the protocol goes into it.
pub open spec fn failure_text(run: RunView) -> Option<Seq<char>> {
    match run.state {
        RunState::Failed { step, cause } => Some(
            "provisioning of "@ + run.target.hostname + " from "@ + run.source_path
                + " failed at step "@ + step_text(step) + ": "@ + kind_text(cause),
        ),
        _ => None,
    }
}

/// One execution of the provisioning of a host: the target, the packages
/// and the local source that it was created with, and how far it has come.
#[derive(Debug)]
pub struct ProvisioningRun {
    target: RemoteTarget,
    packages: Vec<String>,
    source_path: String,
    state: RunState,
    session: SecureSession,
    config: String,
    credential: Vec<u8>,
    origin: Option<String>,
}

impl View for ProvisioningRun {
    type V = RunView;

    closed spec fn view(&self) -> RunView {
        RunView {
            target: self.target@,
            names: names_of(self.packages@),
            source_path: self.source_path@,
            state: self.state,
            session: self.session@,
            config: self.config@,
            credential: self.credential@,
            origin: origin_view(self.origin),
        }
    }
}

impl ProvisioningRun {
    #[verifier::type_invariant]
    spec fn holds_together(&self) -> bool {
        well_formed(self@)
    }

    /// A run that has not started.
    pub fn new(target: RemoteTarget, packages: Vec<String>, source_path: String) -> (run:
        ProvisioningRun)
        ensures
            run@ == fresh_run(target@, names_of(packages@), source_path@),
            well_formed(run@),
    {
        ProvisioningRun {
            target,
            packages,
            source_path,
            state: RunState::Init,
            session: SecureSession::new(),
            config: String::new(),
            credential: Vec::new(),
            origin: None,
        }
    }

    /// The state of the run.
    pub fn state(&self) -> (state: RunState)
        ensures
            state == self@.state,
            well_formed(self@),
    {
        proof {
            use_type_invariant(self);
        }
        self.state
    }

    /// The state of the session of the run.
    pub fn session_state(&self) -> (state: SessionState)
        ensures
            state == self@.session,
    {
        self.session.state()
    }

    /// The rendered configuration. It is empty before it is rendered.
    pub fn config(&self) -> (config: &str)
        ensures
            config@ == self@.config,
    {
        self.config.as_str()
    }

    /// The step at which the run failed and the reason, if it failed.
    pub fn failure(&self) -> (failure: Option<(Step, ErrorKind)>)
        ensures
            failure == (match self@.state {
                RunState::Failed { step, cause } => Some((step, cause)),
                _ => None,
            }),
    {
        match self.state {
            RunState::Failed { step, cause } => Some((step, cause)),
            _ => None,
        }
    }

    /// What to tell the user of the failure, if the run failed.
    pub fn failure_message(&self) -> (message: Option<String>)
        ensures
            failure_text(self@) is None <==> message is None,
            failure_text(self@) matches Some(text) ==> message->Some_0@ == text,
    {
        match self.state {
            RunState::Failed { step, cause } => {
                let mut message = String::from_str("provisioning of ");
                message.append(self.target.hostname.as_str());
                message.append(" from ");
                message.append(self.source_path.as_str());
                message.append(" failed at step ");
                message.append(step.name());
                message.append(": ");
                message.append(cause.text());
                Some(message)
            },
            _ => None,
        }
    }

    /// Whether nothing is left to do.
    pub fn is_over(&self) -> (over: bool)
        ensures
            over == is_over(self@),
    {
        match self.state {
            RunState::Done => true,
            RunState::Failed { .. } => !self.session.is_open(),
            _ => false,
        }
    }

    /// The code with which the program is to end.
    pub fn exit_code(&self) -> (code: i32)
        ensures
            code == exit_code_of(self@.state),
    {
        if self.state == RunState::Done {
            0
        } else {
            1
        }
    }

    /// What the caller is to do next.
    pub fn next_action(&self) -> (action: Action)
        ensures
            action@ == pending(self@),
            well_formed(self@),
    {
        proof {
            use_type_invariant(self);
        }
        match self.state {
            RunState::Init => Action::ReadCredential { path: self.target.key_path.clone() },
            RunState::ConfigRendered => Action::Connect {
                hostname: self.target.hostname.clone(),
                port: self.target.port,
            },
            RunState::Connected => Action::Authenticate {
                username: self.target.username.clone(),
                key_path: self.target.key_path.clone(),
            },
            RunState::Authenticated => Action::Upload(
                TransferSpec::for_content(
                    CONFIG_DESTINATION.to_owned(),
                    FILE_MODE,
                    self.config.as_str().as_bytes_vec(),
                ),
            ),
            RunState::ConfigUploaded => Action::Execute(INSTALL_COMMAND.to_owned()),
            RunState::InstallRan => Action::Upload(
                TransferSpec::for_content(
                    KEY_DESTINATION.to_owned(),
                    FILE_MODE,
                    self.credential.clone(),
                ),
            ),
            RunState::KeyUploaded => Action::InspectSource { path: self.source_path.clone() },
            RunState::GitChecked => match &self.origin {
                Some(url) => Action::Execute(clone_command(url.as_str())),
                None => Action::Proceed,
            },
            RunState::ClonedRemote => Action::Close,
            RunState::SkippedClone => Action::Close,
            RunState::Done => Action::Stop,
            RunState::Failed { .. } => if self.session.is_open() {
                Action::Close
            } else {
                Action::Stop
            },
        }
    }

    /// Takes the report of how the pending action went, and moves on. A
    /// report in a form that the pending action cannot give counts as its
    /// failure.
    pub fn advance(self, outcome: Outcome) -> (next: ProvisioningRun)
        ensures
            next@ == advance(self@, outcome@),
            well_formed(next@),
    {
        proof {
            use_type_invariant(&self);
            lemma_advance_keeps_well_formed(self@, outcome@);
        }
        let ProvisioningRun {
            target,
            packages,
            source_path,
            state,
            session,
            config,
            credential,
            origin,
        } = self;
        let mut session = session;
        let mut config = config;
        let mut credential = credential;
        let mut origin = origin;
        let mut reached = state;
        match state {
            RunState::Done => {},
            RunState::Failed { .. } => {
                if session.is_open() {
                    session.close();
                }
            },
            RunState::ClonedRemote => {
                session.close();
                reached = RunState::Done;
            },
            RunState::SkippedClone => {
                session.close();
                reached = RunState::Done;
            },
            RunState::Init => match outcome {
                Outcome::Cancelled => {
                    reached = RunState::Failed { step: Step::Prepare, cause: ErrorKind::Cancelled };
                },
                Outcome::Credential(bytes) => {
                    credential = bytes;
                    config = render_config(&packages);
                    reached = RunState::ConfigRendered;
                },
                _ => {
                    reached = RunState::Failed {
                        step: Step::Prepare,
                        cause: ErrorKind::MissingCredentialError,
                    };
                },
            },
            RunState::ConfigRendered => match outcome {
                Outcome::Cancelled => {
                    reached = RunState::Failed { step: Step::Connect, cause: ErrorKind::Cancelled };
                },
                Outcome::Completed => {
                    let _ = session.on_connect(true);
                    reached = RunState::Connected;
                },
                _ => {
                    reached = RunState::Failed {
                        step: Step::Connect,
                        cause: ErrorKind::ConnectError,
                    };
                },
            },
            RunState::Connected => match outcome {
                Outcome::Cancelled => {
                    reached = RunState::Failed {
                        step: Step::Authenticate,
                        cause: ErrorKind::Cancelled,
                    };
                },
                Outcome::Completed => {
                    let _ = session.on_authenticate(true);
                    reached = RunState::Authenticated;
                },
                _ => {
                    reached = RunState::Failed {
                        step: Step::Authenticate,
                        cause: ErrorKind::AuthError,
                    };
                },
            },
            RunState::Authenticated => match outcome {
                Outcome::Cancelled => {
                    reached = RunState::Failed {
                        step: Step::UploadConfig,
                        cause: ErrorKind::Cancelled,
                    };
                },
                Outcome::Completed => {
                    reached = RunState::ConfigUploaded;
                },
                _ => {
                    reached = RunState::Failed {
                        step: Step::UploadConfig,
                        cause: ErrorKind::TransferError,
                    };
                },
            },
            RunState::ConfigUploaded => match outcome {
                Outcome::Cancelled => {
                    reached = RunState::Failed {
                        step: Step::RunInstall,
                        cause: ErrorKind::Cancelled,
                    };
                },
                Outcome::Output(_) => {
                    reached = RunState::InstallRan;
                },
                _ => {
                    reached = RunState::Failed {
                        step: Step::RunInstall,
                        cause: ErrorKind::ExecError,
                    };
                },
            },
            RunState::InstallRan => match outcome {
                Outcome::Cancelled => {
                    reached = RunState::Failed {
                        step: Step::UploadKey,
                        cause: ErrorKind::Cancelled,
                    };
                },
                Outcome::Completed => {
                    reached = RunState::KeyUploaded;
                },
                _ => {
                    reached = RunState::Failed {
                        step: Step::UploadKey,
                        cause: ErrorKind::TransferError,
                    };
                },
            },
            RunState::KeyUploaded => match outcome {
                Outcome::Cancelled => {
                    reached = RunState::Failed { step: Step::CheckGit, cause: ErrorKind::Cancelled };
                },
                Outcome::Source(report) => match plan_clone(report) {
                    Ok(found) => {
                        origin = found;
                        reached = RunState::GitChecked;
                    },
                    Err(cause) => {
                        reached = RunState::Failed { step: Step::CheckGit, cause };
                    },
                },
                _ => {
                    reached = RunState::Failed { step: Step::CheckGit, cause: ErrorKind::GitError };
                },
            },
            RunState::GitChecked => match outcome {
                Outcome::Cancelled => {
                    reached = RunState::Failed {
                        step: Step::CloneRemote,
                        cause: ErrorKind::Cancelled,
                    };
                },
                reported => {
                    if origin.is_none() {
                        reached = RunState::SkippedClone;
                    } else {
                        match reported {
                            Outcome::Output(_) => {
                                reached = RunState::ClonedRemote;
                            },
                            _ => {
                                reached = RunState::Failed {
                                    step: Step::CloneRemote,
                                    cause: ErrorKind::ExecError,
                                };
                            },
                        }
                    }
                },
            },
        }
        ProvisioningRun {
            target,
            packages,
            source_path,
            state: reached,
            session,
            config,
            credential,
            origin,
        }
    }
}

/// Whatever is reported to a run, it stays well formed.
pub proof fn lemma_advance_keeps_well_formed(run: RunView, outcome: OutcomeView)
    requires
        well_formed(run),
    ensures
        well_formed(advance(run, outcome)),
{
}

} // verus!
