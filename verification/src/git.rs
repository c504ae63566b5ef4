//! Replicating a local repository on the remote host: finding out whether
//! the local source is a repository, where its origin lies, and the command
//! that clones it.

use vstd::prelude::*;
use vstd::string::StringExecFns;
use crate::command::CommandRequest;
use crate::error::ErrorKind;
use crate::session::{admission, Operation, SecureSession};

verus! {

/// The name of the entry, directly under a work tree, that holds the
/// metadata of its repository.
pub const METADATA_ENTRY: &'static str = ".git";

/// What stands before the address in the command that clones a repository.
pub const CLONE_PREFIX: &'static str = "git clone ";

/// Whether an entry with the name of the repository metadata is among the
/// entries of a directory.
pub open spec fn holds_metadata(entries: Seq<String>) -> bool {
    exists|i: int| 0 <= i < entries.len() && (#[trigger] entries[i])@ == METADATA_ENTRY@
}

/// Tells whether a directory is the work tree of a repository, from the
/// names of the entries that lie directly under it: it is one exactly if
/// the metadata entry is among them. Directories further up are not
/// looked at, and a directory that could not be listed, of which the
/// caller hands in no entries, is no repository.
pub fn is_git_repo(entries: &Vec<String>) -> (found: bool)
    ensures
        found == holds_metadata(entries@),
{
    let metadata = String::from_str(METADATA_ENTRY);
    let mut i: usize = 0;
    while i < entries.len()
        invariant
            i <= entries.len(),
            metadata@ == METADATA_ENTRY@,
            forall|j: int| 0 <= j < i ==> (#[trigger] entries@[j])@ != METADATA_ENTRY@,
        decreases entries.len() - i,
    {
        if entries[i] == metadata {
            return true;
        }
        i += 1;
    }
    false
}

/// What reading the local source gave, as plain values.
pub enum SourceReportView {
    NotARepository,
    Unreadable,
    NoOrigin,
    Origin(Seq<char>),
}

/// What reading the local source gave.
#[derive(Debug)]
pub enum SourceReport {
    /// The path holds no repository metadata.
    NotARepository,
    /// There is metadata, and it could not be read.
    Unreadable,
    /// The repository names no remote called `origin`.
    NoOrigin,
    /// The address of the remote called `origin`, as the repository has
    /// it. It is empty where the repository has the remote without an
    /// address that is text.
    Origin(String),
}

impl View for SourceReport {
    type V = SourceReportView;

    open spec fn view(&self) -> SourceReportView {
        match self {
            SourceReport::NotARepository => SourceReportView::NotARepository,
            SourceReport::Unreadable => SourceReportView::Unreadable,
            SourceReport::NoOrigin => SourceReportView::NoOrigin,
            SourceReport::Origin(url) => SourceReportView::Origin(url@),
        }
    }
}

/// The address of the origin of the local repository, or why there is
/// none. A remote without an address counts as no origin: an empty address
/// is never handed out.
pub open spec fn origin_of(report: SourceReportView) -> Result<Seq<char>, ErrorKind> {
    match report {
        SourceReportView::NotARepository => Err(ErrorKind::NotAGitRepoError),
        SourceReportView::Unreadable => Err(ErrorKind::GitError),
        SourceReportView::NoOrigin => Err(ErrorKind::NoOriginRemoteError),
        SourceReportView::Origin(url) => if url.len() == 0 {
            Err(ErrorKind::NoOriginRemoteError)
        } else {
            Ok(url)
        },
    }
}

/// What is to be cloned on the remote host: nothing where the local source
/// is no repository, the origin where it is one, and a failure where it is
/// one whose origin cannot be told.
pub open spec fn clone_plan(report: SourceReportView) -> Result<Option<Seq<char>>, ErrorKind> {
    match origin_of(report) {
        Ok(url) => Ok(Some(url)),
        Err(ErrorKind::NotAGitRepoError) => Ok(None),
        Err(kind) => Err(kind),
    }
}

/// The command that clones the repository at `url`.
pub open spec fn clone_command_of(url: Seq<char>) -> Seq<char> {
    CLONE_PREFIX@ + url
}

/// The address of the origin of the local repository, from what reading
/// the repository gave.
pub fn get_git_remote_url(report: SourceReport) -> (origin: Result<String, ErrorKind>)
    ensures
        match origin_of(report@) {
            Ok(url) => origin is Ok && origin->Ok_0@ == url,
            Err(kind) => origin == Err::<String, ErrorKind>(kind),
        },
{
    match report {
        SourceReport::NotARepository => Err(ErrorKind::NotAGitRepoError),
        SourceReport::Unreadable => Err(ErrorKind::GitError),
        SourceReport::NoOrigin => Err(ErrorKind::NoOriginRemoteError),
        SourceReport::Origin(url) => {
            if url.as_str().is_empty() {
                Err(ErrorKind::NoOriginRemoteError)
            } else {
                Ok(url)
            }
        },
    }
}

/// Decides what is to be cloned on the remote host.
pub fn plan_clone(report: SourceReport) -> (plan: Result<Option<String>, ErrorKind>)
    ensures
        match clone_plan(report@) {
            Ok(Some(url)) => plan is Ok && plan->Ok_0 is Some && plan->Ok_0->Some_0@ == url,
            Ok(None) => plan == Ok::<Option<String>, ErrorKind>(None),
            Err(kind) => plan == Err::<Option<String>, ErrorKind>(kind),
        },
{
    match get_git_remote_url(report) {
        Ok(url) => Ok(Some(url)),
        Err(ErrorKind::NotAGitRepoError) => Ok(None),
        Err(kind) => Err(kind),
    }
}

/// The command that clones the repository at `url`: the address goes into
/// the command as it is.
pub fn clone_command(url: &str) -> (command_line: String)
    ensures
        command_line@ == clone_command_of(url@),
{
    let mut command_line = String::from_str(CLONE_PREFIX);
    command_line.append(url);
    command_line
}

impl SecureSession {
    /// Prepares the cloning of the repository at `url` on the remote host.
    /// It is admitted as any other command is.
    pub fn clone_on_remote(&self, url: &str) -> (prepared: Result<CommandRequest, ErrorKind>)
        ensures
            match admission(self@, Operation::Run) {
                Ok(()) => prepared is Ok && prepared->Ok_0@ == clone_command_of(url@),
                Err(kind) => prepared == Err::<CommandRequest, ErrorKind>(kind),
            },
    {
        let command_line = clone_command(url);
        self.run(command_line.as_str())
    }
}

/// A directory without entries is no repository, and one more entry makes
/// a directory a repository exactly if it is the metadata entry or the
/// directory was one before.
pub proof fn lemma_metadata_entry_decides(entries: Seq<String>, entry: String)
    ensures
        !holds_metadata(Seq::empty()),
        holds_metadata(entries.push(entry)) <==> holds_metadata(entries) || entry@
            == METADATA_ENTRY@,
{
    let longer = entries.push(entry);
    if holds_metadata(entries) {
        let i = choose|i: int| 0 <= i < entries.len() && (#[trigger] entries[i])@ == METADATA_ENTRY@;
        assert(longer[i] == entries[i]);
    }
    if entry@ == METADATA_ENTRY@ {
        assert(longer[entries.len() as int] == entry);
    }
    if holds_metadata(longer) {
        let i = choose|i: int| 0 <= i < longer.len() && (#[trigger] longer[i])@ == METADATA_ENTRY@;
        if i < entries.len() {
            assert(entries[i] == longer[i]);
        }
    }
}

/// The address of the origin stands at the end of the clone command,
/// unchanged, and nothing follows it.
pub proof fn lemma_clone_command_ends_with_url(url: Seq<char>)
    ensures
        clone_command_of(url).len() == CLONE_PREFIX@.len() + url.len(),
        clone_command_of(url).subrange(
            CLONE_PREFIX@.len() as int,
            clone_command_of(url).len() as int,
        ) == url,
        clone_command_of(url).subrange(0, CLONE_PREFIX@.len() as int) == CLONE_PREFIX@,
{
}

/// A clone is planned exactly for a repository with an origin that has an
/// address; a source without repository is passed over without a failure;
/// a repository without origin is a failure and never passed over.
pub proof fn lemma_clone_plan_cases(report: SourceReportView)
    ensures
        report is NotARepository <==> clone_plan(report) == Ok::<Option<Seq<char>>, ErrorKind>(
            None,
        ),
        report is NoOrigin ==> clone_plan(report) == Err::<Option<Seq<char>>, ErrorKind>(
            ErrorKind::NoOriginRemoteError,
        ),
        report is Unreadable ==> clone_plan(report) == Err::<Option<Seq<char>>, ErrorKind>(
            ErrorKind::GitError,
        ),
        forall|url: Seq<char>|
            clone_plan(report) == Ok::<Option<Seq<char>>, ErrorKind>(Some(url)) <==> report
                == SourceReportView::Origin(url) && url.len() > 0,
{
}

} // verus!
