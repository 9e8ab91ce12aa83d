use gitsync::protocol::{COMMIT_MESSAGE, REMOTE_NAME, SYNC_REF};
use gitsync::{aggregate, Action, Event, Phase, SyncError};

fn drive(url: &[u8], events: Vec<Event>) -> (Phase, Vec<Action>) {
    let mut phase = Phase::Start;
    let mut actions = Vec::new();
    for ev in events {
        actions.push(phase.action());
        phase = phase.next(&ev, url);
    }
    (phase, actions)
}

fn happy(found: Option<Vec<u8>>, head: Event) -> Vec<Event> {
    let first = match found {
        Some(u) => Event::RemoteFound(Some(u)),
        None => Event::RemoteMissing,
    };
    let mut evs = vec![first];
    if !matches!(evs[0], Event::RemoteFound(Some(ref u)) if u.as_slice() == b"git@host:me/backup") {
        evs.push(Event::Succeeded);
    }
    evs.extend(vec![Event::Succeeded, Event::Succeeded, head, Event::Succeeded, Event::Succeeded]);
    evs
}

#[test]
fn constants_name_the_sync_branch() {
    assert_eq!(REMOTE_NAME, "sync");
    assert_eq!(SYNC_REF, "refs/heads/sync");
    assert_eq!(COMMIT_MESSAGE, "sync");
}

#[test]
fn first_sync_creates_remote_and_commits_on_head() {
    let url = b"git@host:me/backup";
    let (phase, actions) = drive(url, happy(None, Event::HeadCommit));
    assert_eq!(phase, Phase::Pushed);
    assert_eq!(phase.outcome(), Some(Ok(())));
    assert_eq!(
        actions,
        vec![
            Action::FindRemote,
            Action::CreateRemote,
            Action::Stage,
            Action::Snapshot,
            Action::ResolveHead,
            Action::Commit { with_parent: true },
            Action::Push,
        ]
    );
}

#[test]
fn unborn_head_commits_without_parent() {
    let url = b"git@host:me/backup";
    let (phase, actions) = drive(url, happy(None, Event::HeadUnborn));
    assert_eq!(phase, Phase::Pushed);
    assert!(actions.contains(&Action::Commit { with_parent: false }));
}

#[test]
fn two_syncs_commit_twice() {
    let url = b"git@host:me/backup";
    let mut commits = 0;
    for _ in 0..2 {
        let (phase, actions) = drive(url, happy(Some(url.to_vec()), Event::HeadCommit));
        assert_eq!(phase, Phase::Pushed);
        commits += actions.iter().filter(|a| matches!(a, Action::Commit { .. })).count();
    }
    assert_eq!(commits, 2);
}

#[test]
fn changed_url_is_updated_in_place() {
    let url = b"git@host:me/backup";
    let (phase, actions) = drive(url, happy(Some(b"git@old:me/backup".to_vec()), Event::HeadCommit));
    assert_eq!(phase, Phase::Pushed);
    assert_eq!(actions[1], Action::SetRemoteUrl);
    assert!(!actions.contains(&Action::CreateRemote));
    let (same, same_actions) = drive(url, happy(Some(url.to_vec()), Event::HeadCommit));
    assert_eq!(same, Phase::Pushed);
    assert_eq!(same_actions[1], Action::Stage);
}

#[test]
fn unreadable_remote_url_is_reset() {
    let url = b"u";
    let phase = Phase::Start.next(&Event::RemoteFound(None), url);
    assert_eq!(phase, Phase::SettingUrl);
    assert_eq!(phase.action(), Action::SetRemoteUrl);
}

#[test]
fn each_step_fails_with_its_kind() {
    let url = b"u";
    assert_eq!(Phase::Start.next(&Event::Failed, url), Phase::Failed(SyncError::Other));
    assert_eq!(Phase::CreatingRemote.next(&Event::Failed, url), Phase::Failed(SyncError::Other));
    assert_eq!(Phase::SettingUrl.next(&Event::Failed, url), Phase::Failed(SyncError::Other));
    assert_eq!(Phase::RemoteReady.next(&Event::Failed, url), Phase::Failed(SyncError::Add));
    assert_eq!(Phase::Staged.next(&Event::Failed, url), Phase::Failed(SyncError::Commit));
    assert_eq!(Phase::Snapshotted.next(&Event::Failed, url), Phase::Failed(SyncError::Commit));
    assert_eq!(
        Phase::HeadResolved { has_parent: true }.next(&Event::Failed, url),
        Phase::Failed(SyncError::Commit)
    );
    assert_eq!(Phase::Committed.next(&Event::Failed, url), Phase::Failed(SyncError::Push));
    assert_eq!(
        Phase::Committed.next(&Event::CredentialRefused, url),
        Phase::Failed(SyncError::Credential)
    );
    let failed = Phase::Failed(SyncError::Add);
    assert_eq!(failed.next(&Event::Succeeded, url), failed);
    assert_eq!(failed.action(), Action::Finish);
    assert_eq!(failed.outcome(), Some(Err(SyncError::Add)));
    assert_eq!(Phase::Staged.outcome(), None);
}

#[test]
fn second_of_three_failing_push_is_reported() {
    let results = vec![Ok(()), Err(SyncError::Push), Ok(())];
    assert_eq!(aggregate(&results), Err(SyncError::Push));
}

#[test]
fn first_observed_failure_wins() {
    let results = vec![Ok(()), Err(SyncError::Add), Err(SyncError::Push)];
    assert_eq!(aggregate(&results), Err(SyncError::Add));
    assert_eq!(aggregate(&vec![Ok(()), Ok(())]), Ok(()));
    assert_eq!(aggregate(&Vec::new()), Ok(()));
}

#[test]
fn first_failure_points_at_earliest_error() {
    let results = vec![Ok(()), Err(SyncError::Push), Err(SyncError::Add)];
    assert_eq!(gitsync::first_failure(&results), Some(1));
    assert_eq!(gitsync::first_failure(&vec![Ok(()), Ok(())]), None);
}
