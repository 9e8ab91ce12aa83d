//! The snapshot protocol for one repository, as a state machine: the caller
//! performs the action of the current phase against the repository and feeds
//! back what happened.
use vstd::prelude::*;

use crate::bytes::same_bytes;

verus! {

/// The name of the remote that snapshots are pushed to.
pub const REMOTE_NAME: &'static str = "sync";

/// The branch that each snapshot commit is recorded on, and the only ref pushed.
pub const SYNC_REF: &'static str = "refs/heads/sync";

/// The message of every snapshot commit.
pub const COMMIT_MESSAGE: &'static str = "sync";

/// Why the protocol failed for a repository.
#[derive(Debug, Clone, Copy, PartialEq, Eq, Structural)]
pub enum SyncError {
    /// Writing the index, building the tree or creating the commit failed.
    Commit,
    /// Pushing the sync branch failed.
    Push,
    /// Staging the working tree failed.
    Add,
    /// The transport asked for credentials that could not be supplied.
    Credential,
    /// Setting up the remote failed.
    Other,
}

/// Where the protocol stands for one repository.
#[derive(Debug, Clone, Copy, PartialEq, Eq, Structural)]
pub enum Phase {
    /// Nothing done yet.
    Start,
    /// The remote was missing and is being created.
    CreatingRemote,
    /// The remote points elsewhere and is being redirected.
    SettingUrl,
    /// The remote points at the configured URL.
    RemoteReady,
    /// The working tree is in the index.
    Staged,
    /// The index is written and a tree built from it.
    Snapshotted,
    /// It is known whether the commit gets the head as parent.
    HeadResolved { has_parent: bool },
    /// The sync branch points at the new commit.
    Committed,
    /// The sync branch was pushed: the protocol succeeded.
    Pushed,
    /// A step failed; nothing that was done before is undone.
    Failed(SyncError),
}

/// What the caller must do next.
#[derive(Debug, Clone, Copy, PartialEq, Eq, Structural)]
pub enum Action {
    /// Look up the remote named `REMOTE_NAME`.
    FindRemote,
    /// Create the remote, pointed at the configured URL.
    CreateRemote,
    /// Point the existing remote at the configured URL.
    SetRemoteUrl,
    /// Add every path under the working tree to the index.
    Stage,
    /// Write the index and build a tree from it.
    Snapshot,
    /// Resolve `HEAD` to a commit, if there is one.
    ResolveHead,
    /// Commit the tree onto `SYNC_REF`, with the resolved head as sole parent
    /// when there is one, and with no parent otherwise.
    Commit { with_parent: bool },
    /// Push `SYNC_REF` alone to the remote.
    Push,
    /// Nothing is left to do.
    Finish,
}

/// What happened when the caller performed an action.
#[derive(Debug, Clone)]
pub enum Event {
    /// The remote exists, with this URL (`None` where it cannot be read).
    RemoteFound(Option<Vec<u8>>),
    /// No such remote.
    RemoteMissing,
    /// `HEAD` resolves to a commit.
    HeadCommit,
    /// `HEAD` does not resolve to a commit.
    HeadUnborn,
    /// The action succeeded.
    Succeeded,
    /// The action failed.
    Failed,
    /// The transport's credential request could not be answered.
    CredentialRefused,
}

/// The phase that follows `ph` once `ev` is reported, with `url` the
/// configured remote URL. An event that does not answer the phase's action
/// counts as a failure of that action; a finished phase stays as it is.
pub open spec fn next_phase(ph: Phase, ev: Event, url: Seq<u8>) -> Phase {
    match ph {
        Phase::Start => match ev {
            Event::RemoteFound(Some(u)) => if u@ == url {
                Phase::RemoteReady
            } else {
                Phase::SettingUrl
            },
            Event::RemoteFound(None) => Phase::SettingUrl,
            Event::RemoteMissing => Phase::CreatingRemote,
            _ => Phase::Failed(SyncError::Other),
        },
        Phase::CreatingRemote | Phase::SettingUrl => match ev {
            Event::Succeeded => Phase::RemoteReady,
            _ => Phase::Failed(SyncError::Other),
        },
        Phase::RemoteReady => match ev {
            Event::Succeeded => Phase::Staged,
            _ => Phase::Failed(SyncError::Add),
        },
        Phase::Staged => match ev {
            Event::Succeeded => Phase::Snapshotted,
            _ => Phase::Failed(SyncError::Commit),
        },
        Phase::Snapshotted => match ev {
            Event::HeadCommit => Phase::HeadResolved { has_parent: true },
            Event::HeadUnborn => Phase::HeadResolved { has_parent: false },
            _ => Phase::Failed(SyncError::Commit),
        },
        Phase::HeadResolved { .. } => match ev {
            Event::Succeeded => Phase::Committed,
            _ => Phase::Failed(SyncError::Commit),
        },
        Phase::Committed => match ev {
            Event::Succeeded => Phase::Pushed,
            Event::CredentialRefused => Phase::Failed(SyncError::Credential),
            _ => Phase::Failed(SyncError::Push),
        },
        Phase::Pushed | Phase::Failed(_) => ph,
    }
}

/// The action that the phase asks for.
pub open spec fn action_of(ph: Phase) -> Action {
    match ph {
        Phase::Start => Action::FindRemote,
        Phase::CreatingRemote => Action::CreateRemote,
        Phase::SettingUrl => Action::SetRemoteUrl,
        Phase::RemoteReady => Action::Stage,
        Phase::Staged => Action::Snapshot,
        Phase::Snapshotted => Action::ResolveHead,
        Phase::HeadResolved { has_parent } => Action::Commit { with_parent: has_parent },
        Phase::Committed => Action::Push,
        Phase::Pushed | Phase::Failed(_) => Action::Finish,
    }
}

/// The result of a finished protocol; `None` while it is still running.
pub open spec fn outcome_of(ph: Phase) -> Option<Result<(), SyncError>> {
    match ph {
        Phase::Pushed => Some(Ok(())),
        Phase::Failed(e) => Some(Err(e)),
        _ => None,
    }
}

/// The phase reached from `ph` after the events `evs`, in order.
pub open spec fn run(ph: Phase, evs: Seq<Event>, url: Seq<u8>) -> Phase
    decreases evs.len(),
{
    if evs.len() == 0 {
        ph
    } else {
        run(next_phase(ph, evs[0], url), evs.drop_first(), url)
    }
}

/// The actions asked for along the way, one for each event.
pub open spec fn trace(ph: Phase, evs: Seq<Event>, url: Seq<u8>) -> Seq<Action>
    decreases evs.len(),
{
    if evs.len() == 0 {
        seq![]
    } else {
        seq![action_of(ph)] + trace(next_phase(ph, evs[0], url), evs.drop_first(), url)
    }
}

/// How many of the actions create a commit.
pub open spec fn commits(acts: Seq<Action>) -> nat
    decreases acts.len(),
{
    if acts.len() == 0 {
        0
    } else {
        (if acts[0] is Commit { 1nat } else { 0nat }) + commits(acts.drop_first())
    }
}

impl Phase {
    /// The action that this phase asks for.
    pub fn action(&self) -> (r: Action)
        ensures
            r == action_of(*self),
    {
        match self {
            Phase::Start => Action::FindRemote,
            Phase::CreatingRemote => Action::CreateRemote,
            Phase::SettingUrl => Action::SetRemoteUrl,
            Phase::RemoteReady => Action::Stage,
            Phase::Staged => Action::Snapshot,
            Phase::Snapshotted => Action::ResolveHead,
            Phase::HeadResolved { has_parent } => Action::Commit { with_parent: *has_parent },
            Phase::Committed => Action::Push,
            Phase::Pushed | Phase::Failed(_) => Action::Finish,
        }
    }

    /// The phase that follows once `ev` is reported, `url` being the
    /// configured remote URL.
    pub fn next(self, ev: &Event, url: &[u8]) -> (r: Phase)
        ensures
            r == next_phase(self, *ev, url@),
    {
        match self {
            Phase::Start => match ev {
                Event::RemoteFound(Some(u)) => if same_bytes(u.as_slice(), url) {
                    Phase::RemoteReady
                } else {
                    Phase::SettingUrl
                },
                Event::RemoteFound(None) => Phase::SettingUrl,
                Event::RemoteMissing => Phase::CreatingRemote,
                _ => Phase::Failed(SyncError::Other),
            },
            Phase::CreatingRemote | Phase::SettingUrl => match ev {
                Event::Succeeded => Phase::RemoteReady,
                _ => Phase::Failed(SyncError::Other),
            },
            Phase::RemoteReady => match ev {
                Event::Succeeded => Phase::Staged,
                _ => Phase::Failed(SyncError::Add),
            },
            Phase::Staged => match ev {
                Event::Succeeded => Phase::Snapshotted,
                _ => Phase::Failed(SyncError::Commit),
            },
            Phase::Snapshotted => match ev {
                Event::HeadCommit => Phase::HeadResolved { has_parent: true },
                Event::HeadUnborn => Phase::HeadResolved { has_parent: false },
                _ => Phase::Failed(SyncError::Commit),
            },
            Phase::HeadResolved { .. } => match ev {
                Event::Succeeded => Phase::Committed,
                _ => Phase::Failed(SyncError::Commit),
            },
            Phase::Committed => match ev {
                Event::Succeeded => Phase::Pushed,
                Event::CredentialRefused => Phase::Failed(SyncError::Credential),
                _ => Phase::Failed(SyncError::Push),
            },
            Phase::Pushed | Phase::Failed(_) => self,
        }
    }

    /// The result once the protocol has finished, `None` before.
    pub fn outcome(&self) -> (r: Option<Result<(), SyncError>>)
        ensures
            r == outcome_of(*self),
    {
        match self {
            Phase::Pushed => Some(Ok(())),
            Phase::Failed(e) => Some(Err(*e)),
            _ => None,
        }
    }
}

proof fn lemma_failed_stays(e: SyncError, evs: Seq<Event>, url: Seq<u8>)
    ensures
        run(Phase::Failed(e), evs, url) == Phase::Failed(e),
    decreases evs.len(),
{
    if evs.len() > 0 {
        lemma_failed_stays(e, evs.drop_first(), url);
    }
}

proof fn lemma_commits_from(ph: Phase, evs: Seq<Event>, url: Seq<u8>)
    ensures
        run(ph, evs, url) == Phase::Pushed ==> commits(trace(ph, evs, url)) == (if ph is Committed
            || ph is Pushed {
            0nat
        } else {
            1nat
        }),
    decreases evs.len(),
{
    if evs.len() > 0 {
        let nxt = next_phase(ph, evs[0], url);
        lemma_commits_from(nxt, evs.drop_first(), url);
        let t = trace(ph, evs, url);
        assert(t.drop_first() =~= trace(nxt, evs.drop_first(), url));
        assert(t[0] == action_of(ph));
        if let Phase::Failed(e) = nxt {
            lemma_failed_stays(e, evs.drop_first(), url);
        }
        if let Phase::Failed(e) = ph {
            lemma_failed_stays(e, evs, url);
        }
    }
}

/// Every run of the protocol that ends with the push creates exactly one
/// commit, whatever the working tree held: there is no path that skips the
/// commit because nothing changed, so each invocation adds a commit of its own.
pub proof fn lemma_one_commit_per_sync(evs: Seq<Event>, url: Seq<u8>)
    requires
        run(Phase::Start, evs, url) == Phase::Pushed,
    ensures
        commits(trace(Phase::Start, evs, url)) == 1,
{
    lemma_commits_from(Phase::Start, evs, url);
}

/// The snapshot commit has the head commit as its sole parent when `HEAD`
/// resolves to one, and no parent when the branch is unborn.
pub proof fn lemma_commit_parent(url: Seq<u8>)
    ensures
        action_of(next_phase(Phase::Snapshotted, Event::HeadCommit, url)) == (Action::Commit { with_parent: true }),
        action_of(next_phase(Phase::Snapshotted, Event::HeadUnborn, url)) == (Action::Commit { with_parent: false }),
{
}

/// An existing remote whose URL differs from the configured one is updated in
/// place, never created anew, and the protocol then goes on with it; one whose
/// URL matches is used as it is.
pub proof fn lemma_remote_url_updated(u: Vec<u8>, url: Seq<u8>)
    ensures
        u@ != url ==> next_phase(Phase::Start, Event::RemoteFound(Some(u)), url) == Phase::SettingUrl,
        u@ == url ==> next_phase(Phase::Start, Event::RemoteFound(Some(u)), url) == Phase::RemoteReady,
        action_of(Phase::SettingUrl) == Action::SetRemoteUrl,
        next_phase(Phase::SettingUrl, Event::Succeeded, url) == Phase::RemoteReady,
{
}

} // verus!
