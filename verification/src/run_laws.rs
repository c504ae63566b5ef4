//! What holds of every provisioning run, whatever its caller reports.

use vstd::prelude::*;
use vstd::utf8::encode_utf8;
use crate::error::ErrorKind;
use crate::git::{clone_command_of, clone_plan, SourceReportView, CLONE_PREFIX};
use crate::render::rendered;
use crate::run::{advance, error_of, fresh_run, goal_of, is_over, pending, upload_of};
use crate::run::{lemma_advance_keeps_well_formed, reports_success, step_from, well_formed};
use crate::run::{ActionView, OutcomeView, RunState, RunView, Step, TargetView};
use crate::run::{CONFIG_DESTINATION, KEY_DESTINATION};
use crate::session::{admission, is_open, Operation, SessionState};
use crate::transfer::well_declared;

verus! {

/// The number of reports that a run can still take before it is over.
pub open spec fn steps_left(run: RunView) -> nat {
    match run.state {
        RunState::Init => 9,
        RunState::ConfigRendered => 8,
        RunState::Connected => 7,
        RunState::Authenticated => 6,
        RunState::ConfigUploaded => 5,
        RunState::InstallRan => 4,
        RunState::KeyUploaded => 3,
        RunState::GitChecked => 2,
        RunState::ClonedRemote => 1,
        RunState::SkippedClone => 1,
        RunState::Done => 0,
        RunState::Failed { .. } => if is_open(run.session) {
            1
        } else {
            0
        },
    }
}

/// The run after a sequence of reports, taken one after the other.
pub open spec fn run_through(run: RunView, outcomes: Seq<OutcomeView>) -> RunView
    decreases outcomes.len(),
{
    if outcomes.len() == 0 {
        run
    } else {
        advance(run_through(run, outcomes.drop_last()), outcomes.last())
    }
}

/// Whether an action goes over the connection.
pub open spec fn uses_session(action: ActionView) -> bool {
    action is Authenticate || action is Upload || action is Execute
}

/// A run starts well formed.
pub proof fn lemma_fresh_run_is_well_formed(
    target: TargetView,
    names: Seq<Seq<char>>,
    source_path: Seq<char>,
)
    ensures
        well_formed(fresh_run(target, names, source_path)),
        steps_left(fresh_run(target, names, source_path)) == 9,
        pending(fresh_run(target, names, source_path)) == (ActionView::ReadCredential {
            path: target.key_path,
        }),
{
}

/// No run leaks its connection: when nothing is left to do, the session is
/// not open. A run that came to its end has closed it.
pub proof fn lemma_over_run_holds_no_session(run: RunView)
    requires
        well_formed(run),
    ensures
        is_over(run) ==> !is_open(run.session),
        is_over(run) <==> steps_left(run) == 0,
        is_over(run) ==> run.state == RunState::Done || run.state is Failed,
        run.state == RunState::Done ==> run.session == SessionState::Closed,
{
}

/// Whatever a run asks for, the session admits: it connects only while
/// disconnected, authenticates only while connected, and uploads and runs
/// commands only while authenticated. On a closed session it asks for
/// nothing at all.
pub proof fn lemma_pending_is_admitted(run: RunView)
    requires
        well_formed(run),
    ensures
        pending(run) is Connect ==> admission(run.session, Operation::Connect) is Ok,
        pending(run) is Authenticate ==> admission(run.session, Operation::Authenticate) is Ok,
        pending(run) is Upload ==> admission(run.session, Operation::Send) is Ok,
        pending(run) is Execute ==> admission(run.session, Operation::Run) is Ok,
        pending(run) is Close ==> is_open(run.session),
        run.session == SessionState::Closed ==> pending(run) is Stop,
{
}

/// Before a session is open a run does nothing but local work and
/// connecting: nothing reaches the network before the credential was read.
pub proof fn lemma_local_work_comes_first(run: RunView)
    requires
        well_formed(run),
        run.state == RunState::Init,
    ensures
        pending(run) is ReadCredential,
        forall|outcome: OutcomeView|
            !(outcome is Credential) ==> is_over(#[trigger] advance(run, outcome)) && advance(
                run,
                outcome,
            ).session == SessionState::Disconnected,
{
}

/// Every upload that a run asks for announces the exact length of its
/// content, as long as the content is of a length that can be announced.
pub proof fn lemma_pending_upload_is_well_declared(run: RunView)
    requires
        pending(run) is Upload,
        pending(run)->Upload_0.content.len() <= u64::MAX,
    ensures
        well_declared(pending(run)->Upload_0),
{
}

/// What a run was created with stays with it: no report changes the
/// target, the packages or the local path, and once the credential was
/// read and the configuration rendered, they stay as they are.
pub proof fn lemma_inputs_are_kept(run: RunView, outcome: OutcomeView)
    ensures
        advance(run, outcome).target == run.target,
        advance(run, outcome).names == run.names,
        advance(run, outcome).source_path == run.source_path,
        run.state != RunState::Init ==> advance(run, outcome).config == run.config && advance(
            run,
            outcome,
        ).credential == run.credential,
{
}

/// What a run uploads is what it was given: the configuration that goes to
/// the remote host is the rendering of the packages of the run, and the
/// credential that goes there is the one that was read at the start.
pub proof fn lemma_uploads_carry_config_and_credential(run: RunView, credential: Seq<u8>)
    requires
        well_formed(run),
    ensures
        run.state == RunState::Authenticated ==> pending(run) == ActionView::Upload(
            upload_of(CONFIG_DESTINATION@, encode_utf8(rendered(run.names))),
        ),
        run.state == RunState::InstallRan ==> pending(run) == ActionView::Upload(
            upload_of(KEY_DESTINATION@, run.credential),
        ),
        run.state == RunState::Init ==> advance(run, OutcomeView::Credential(credential)).credential
            == credential && advance(run, OutcomeView::Credential(credential)).config == rendered(
            run.names,
        ),
{
}

/// Each report brings a run closer to its end, and a run that is over
/// stays as it is. So no step is taken twice.
pub proof fn lemma_advance_makes_progress(run: RunView, outcome: OutcomeView)
    requires
        well_formed(run),
    ensures
        !is_over(run) ==> steps_left(advance(run, outcome)) < steps_left(run),
        is_over(run) ==> advance(run, outcome) == run,
{
}

/// A run stays well formed through any sequence of reports.
pub proof fn lemma_run_through_keeps_well_formed(run: RunView, outcomes: Seq<OutcomeView>)
    requires
        well_formed(run),
    ensures
        well_formed(run_through(run, outcomes)),
    decreases outcomes.len(),
{
    if outcomes.len() > 0 {
        lemma_run_through_keeps_well_formed(run, outcomes.drop_last());
        lemma_advance_keeps_well_formed(run_through(run, outcomes.drop_last()), outcomes.last());
    }
}

/// Every run ends: after as many reports as steps were left, whatever they
/// say, nothing is left to do and the session is not open. Nine reports
/// end any run.
pub proof fn lemma_run_ends(run: RunView, outcomes: Seq<OutcomeView>)
    requires
        well_formed(run),
        outcomes.len() >= steps_left(run),
    ensures
        is_over(run_through(run, outcomes)),
        !is_open(run_through(run, outcomes).session),
{
    lemma_steps_left_after(run, outcomes);
    lemma_run_through_keeps_well_formed(run, outcomes);
    lemma_over_run_holds_no_session(run_through(run, outcomes));
}

/// The steps that are left after a sequence of reports: each report takes
/// at least one away until none is left.
pub proof fn lemma_steps_left_after(run: RunView, outcomes: Seq<OutcomeView>)
    requires
        well_formed(run),
    ensures
        steps_left(run_through(run, outcomes)) + outcomes.len() <= steps_left(run) || steps_left(
            run_through(run, outcomes),
        ) == 0,
    decreases outcomes.len(),
{
    if outcomes.len() > 0 {
        let before = run_through(run, outcomes.drop_last());
        lemma_steps_left_after(run, outcomes.drop_last());
        lemma_run_through_keeps_well_formed(run, outcomes.drop_last());
        lemma_advance_makes_progress(before, outcomes.last());
        lemma_over_run_holds_no_session(before);
    }
}

/// A step that does not report its success fails the run at that step:
/// with `Cancelled` where the caller gave the run up, and with the failure
/// that is the step's own otherwise. The one step that cannot fail is the
/// one that passes over a source without repository.
pub proof fn lemma_failure_names_its_step(run: RunView, outcome: OutcomeView)
    requires
        well_formed(run),
        step_from(run.state) is Some,
    ensures
        outcome is Cancelled ==> advance(run, outcome).state == (RunState::Failed {
            step: step_from(run.state)->Some_0,
            cause: ErrorKind::Cancelled,
        }),
        !(outcome is Cancelled) && !reports_success(step_from(run.state)->Some_0, outcome) && !(
        run.state == RunState::GitChecked && run.origin is None) ==> advance(run, outcome).state
            == (RunState::Failed {
            step: step_from(run.state)->Some_0,
            cause: error_of(step_from(run.state)->Some_0),
        }),
        advance(run, outcome).state is Failed ==> advance(run, outcome).session == run.session,
{
}

/// A step that reports its success leads to the state that is its goal.
/// Two steps decide more: the check of the source fails where the
/// repository has no origin or cannot be read, and the clone is passed
/// over where there is nothing to clone.
pub proof fn lemma_success_reaches_goal(run: RunView, outcome: OutcomeView)
    requires
        well_formed(run),
        step_from(run.state) is Some,
        reports_success(step_from(run.state)->Some_0, outcome),
    ensures
        run.state != RunState::KeyUploaded && run.state != RunState::GitChecked ==> advance(
            run,
            outcome,
        ).state == goal_of(step_from(run.state)->Some_0),
        run.state == RunState::KeyUploaded && clone_plan(outcome->Source_0) is Ok ==> advance(
            run,
            outcome,
        ).state == RunState::GitChecked && advance(run, outcome).origin == clone_plan(
            outcome->Source_0,
        )->Ok_0,
        run.state == RunState::KeyUploaded && clone_plan(outcome->Source_0) is Err ==> advance(
            run,
            outcome,
        ).state == (RunState::Failed {
            step: Step::CheckGit,
            cause: clone_plan(outcome->Source_0)->Err_0,
        }),
        run.state == RunState::GitChecked && run.origin is Some ==> advance(run, outcome).state
            == RunState::ClonedRemote,
        run.state == RunState::GitChecked && run.origin is None ==> advance(run, outcome).state
            == RunState::SkippedClone,
{
}

/// After a failure a run asks for nothing but the closing of the session,
/// if it is open, and keeps the step and the cause of the failure.
pub proof fn lemma_failed_run_only_closes(run: RunView, outcome: OutcomeView)
    requires
        well_formed(run),
        run.state is Failed,
    ensures
        pending(run) is Close || pending(run) is Stop,
        advance(run, outcome).state == run.state,
        is_over(advance(run, outcome)),
        is_open(run.session) ==> advance(run, outcome).session == SessionState::Closed,
{
}

/// Where the key is rejected, the run fails at the step that authenticates,
/// with `AuthError`. It then asks for the closing of the session and for
/// nothing else: no upload and no command follows.
pub proof fn lemma_rejected_key_fails_and_closes(run: RunView, after_close: OutcomeView)
    requires
        well_formed(run),
        run.state == RunState::Connected,
    ensures
        goal_of(Step::Authenticate) == RunState::Authenticated,
        advance(run, OutcomeView::Failed).state == (RunState::Failed {
            step: Step::Authenticate,
            cause: ErrorKind::AuthError,
        }),
        pending(advance(run, OutcomeView::Failed)) is Close,
        is_over(advance(advance(run, OutcomeView::Failed), after_close)),
        advance(advance(run, OutcomeView::Failed), after_close).session == SessionState::Closed,
{
}

/// Where the local source is no repository, the run passes the clone over
/// and comes to its end: it goes through `GitChecked` and `SkippedClone`
/// to `Done`, and asks for no command on the way.
pub proof fn lemma_source_without_repository_skips_clone(
    run: RunView,
    proceeded: OutcomeView,
    closed: OutcomeView,
)
    requires
        well_formed(run),
        run.state == RunState::KeyUploaded,
        !(proceeded is Cancelled),
    ensures
        ({
            let checked = advance(run, OutcomeView::Source(SourceReportView::NotARepository));
            let skipped = advance(checked, proceeded);
            let done = advance(skipped, closed);
            &&& checked.state == RunState::GitChecked
            &&& pending(checked) is Proceed
            &&& skipped.state == RunState::SkippedClone
            &&& pending(skipped) is Close
            &&& done.state == RunState::Done
            &&& done.session == SessionState::Closed
            &&& is_over(done)
        }),
{
}

/// Where the local source is a repository with an origin, the command that
/// the run asks for next clones exactly that address.
pub proof fn lemma_origin_is_cloned_as_it_is(run: RunView, url: Seq<char>)
    requires
        well_formed(run),
        run.state == RunState::KeyUploaded,
        url.len() > 0,
    ensures
        ({
            let checked = advance(run, OutcomeView::Source(SourceReportView::Origin(url)));
            &&& checked.state == RunState::GitChecked
            &&& pending(checked) == ActionView::Execute(CLONE_PREFIX@ + url)
        }),
{
    assert(clone_command_of(url) == CLONE_PREFIX@ + url);
}

/// Where the local source is a repository without origin, the run fails
/// with `NoOriginRemoteError` at the check of the source. It asks for the
/// closing of the session and never for a clone.
pub proof fn lemma_repository_without_origin_fails(run: RunView, after_close: OutcomeView)
    requires
        well_formed(run),
        run.state == RunState::KeyUploaded,
    ensures
        ({
            let failed = advance(run, OutcomeView::Source(SourceReportView::NoOrigin));
            &&& failed.state == (RunState::Failed {
                step: Step::CheckGit,
                cause: ErrorKind::NoOriginRemoteError,
            })
            &&& pending(failed) is Close
            &&& is_over(advance(failed, after_close))
            &&& advance(failed, after_close).session == SessionState::Closed
        }),
{
}

/// A clone is asked for only in one state, and only for the origin that
/// the check of the source found.
pub proof fn lemma_clone_needs_origin(run: RunView)
    requires
        well_formed(run),
        run.state != RunState::ConfigUploaded,
        pending(run) is Execute,
    ensures
        run.state == RunState::GitChecked,
        run.origin is Some,
        pending(run)->Execute_0 == clone_command_of(run.origin->Some_0),
{
}

} // verus!
