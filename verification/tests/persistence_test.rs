use collab_integrate::ids::Uuid;
use collab_integrate::persistence::{
    CollabPersistenceImpl, DataSource, PersistenceError, StorageCall, StorageFault, StorageKey,
    StorageReply, StorageReport, StorageRun, StorageStage, StorageTask,
};

const WORKSPACE: u128 = 0x11111111_2222_3333_4444_555555555555;

fn adapter() -> CollabPersistenceImpl {
    CollabPersistenceImpl::new(7, Uuid::from_u128(WORKSPACE))
}

fn replay(mut run: StorageRun, replies: &[StorageReply]) -> (StorageRun, Vec<StorageCall>) {
    let mut calls = vec![run.pending()];
    for reply in replies {
        run = run.advance(*reply);
        calls.push(run.pending());
    }
    (run, calls)
}

#[test]
fn adapter_keeps_user_and_workspace() {
    let adapter = adapter();
    assert_eq!(adapter.uid, 7);
    assert_eq!(adapter.workspace_id, Uuid::from_u128(WORKSPACE));
}

#[test]
fn adapter_becomes_a_disk_source() {
    match adapter().into_data_source() {
        DataSource::Disk(Some(inner)) => assert_eq!(inner, adapter()),
        other => panic!("unexpected: {:?}", other),
    }
}

#[test]
fn storage_key_names_user_workspace_and_object() {
    let key = adapter().storage_key("doc-1");
    assert_eq!(key.uid, 7);
    assert_eq!(key.workspace_id, "11111111-2222-3333-4444-555555555555");
    assert_eq!(key.object_id, "doc-1");
}

#[test]
fn load_begins_by_upgrading_the_handle() {
    let run = adapter().load_collab_from_disk("doc-1");
    assert_eq!(run.task, StorageTask::Load);
    assert_eq!(run.stage, StorageStage::Upgrading);
    assert_eq!(run.pending(), StorageCall::Upgrade);
    assert_eq!(run.outcome(), None);
    assert_eq!(run.key.uid, 7);
    assert_eq!(run.key.workspace_id, "11111111-2222-3333-4444-555555555555");
    assert_eq!(run.key.object_id, "doc-1");
}

#[test]
fn load_without_storage_is_unavailable() {
    let (run, calls) = replay(adapter().load_collab_from_disk("doc-1"), &[StorageReply::Dropped]);
    assert_eq!(run.outcome(), Some(Err(PersistenceError::StorageUnavailable)));
    assert_eq!(
        calls,
        vec![StorageCall::Upgrade, StorageCall::Return(Err(PersistenceError::StorageUnavailable))]
    );
}

#[test]
fn load_of_an_absent_object_replays_nothing() {
    let (run, calls) = replay(
        adapter().load_collab_from_disk("doc-1"),
        &[StorageReply::Available, StorageReply::Absent],
    );
    assert_eq!(run.outcome(), Some(Ok(StorageReport::NothingStored)));
    assert_eq!(
        calls,
        vec![
            StorageCall::Upgrade,
            StorageCall::Exists,
            StorageCall::Return(Ok(StorageReport::NothingStored)),
        ]
    );
}

#[test]
fn load_replays_what_exists_and_commits() {
    let (run, calls) = replay(
        adapter().load_collab_from_disk("doc-1"),
        &[
            StorageReply::Available,
            StorageReply::Present,
            StorageReply::Completed,
            StorageReply::Completed,
        ],
    );
    assert_eq!(run.outcome(), Some(Ok(StorageReport::Replayed)));
    assert_eq!(
        calls,
        vec![
            StorageCall::Upgrade,
            StorageCall::Exists,
            StorageCall::Replay,
            StorageCall::CommitCore,
            StorageCall::Return(Ok(StorageReport::Replayed)),
        ]
    );
}

#[test]
fn load_survives_a_broken_replay() {
    let (run, calls) = replay(
        adapter().load_collab_from_disk("doc-1"),
        &[
            StorageReply::Available,
            StorageReply::Present,
            StorageReply::Rejected,
            StorageReply::Completed,
        ],
    );
    assert_eq!(run.outcome(), Some(Ok(StorageReport::ReplayFailed)));
    assert_eq!(calls[3], StorageCall::CommitCore);
}

#[test]
fn save_without_storage_is_unavailable_and_stays_so() {
    let (run, calls) = replay(
        adapter().save_collab_to_disk("doc-1"),
        &[StorageReply::Dropped, StorageReply::Completed, StorageReply::Available],
    );
    assert_eq!(run.task, StorageTask::Save);
    assert_eq!(run.outcome(), Some(Err(PersistenceError::StorageUnavailable)));
    let gone = StorageCall::Return(Err(PersistenceError::StorageUnavailable));
    assert_eq!(calls, vec![StorageCall::Upgrade, gone, gone, gone]);
}

#[test]
fn save_flushes_and_commits() {
    let (run, calls) = replay(
        adapter().save_collab_to_disk("doc-1"),
        &[StorageReply::Available, StorageReply::Completed, StorageReply::Completed],
    );
    assert_eq!(run.outcome(), Some(Ok(StorageReport::Saved)));
    assert_eq!(
        calls,
        vec![
            StorageCall::Upgrade,
            StorageCall::Flush,
            StorageCall::Commit,
            StorageCall::Return(Ok(StorageReport::Saved)),
        ]
    );
}

#[test]
fn save_fails_with_the_step_that_was_refused() {
    let (run, _) = replay(
        adapter().save_collab_to_disk("doc-1"),
        &[StorageReply::Available, StorageReply::Rejected],
    );
    assert_eq!(run.outcome(), Some(Err(PersistenceError::Internal(StorageFault::Flush))));
    let (run, _) = replay(
        adapter().save_collab_to_disk("doc-1"),
        &[StorageReply::Available, StorageReply::Completed, StorageReply::Rejected],
    );
    assert_eq!(run.outcome(), Some(Err(PersistenceError::Internal(StorageFault::Commit))));
}

fn disk_write() -> StorageRun {
    StorageRun::begin(
        StorageTask::DiskWrite,
        StorageKey { uid: 7, workspace_id: "w".to_string(), object_id: "o".to_string() },
    )
}

#[test]
fn disk_write_without_storage_writes_nothing_and_succeeds() {
    let (run, calls) = replay(disk_write(), &[StorageReply::Dropped]);
    assert_eq!(run.outcome(), Some(Ok(StorageReport::Skipped)));
    assert_eq!(calls, vec![StorageCall::Upgrade, StorageCall::Return(Ok(StorageReport::Skipped))]);
}

#[test]
fn disk_write_encodes_flushes_and_commits() {
    let (run, calls) = replay(
        disk_write(),
        &[
            StorageReply::Available,
            StorageReply::Completed,
            StorageReply::Completed,
            StorageReply::Completed,
        ],
    );
    assert_eq!(run.outcome(), Some(Ok(StorageReport::Saved)));
    assert_eq!(
        calls,
        vec![
            StorageCall::Upgrade,
            StorageCall::Encode,
            StorageCall::Flush,
            StorageCall::Commit,
            StorageCall::Return(Ok(StorageReport::Saved)),
        ]
    );
}

#[test]
fn disk_write_fails_where_the_core_cannot_be_encoded() {
    let (run, calls) = replay(disk_write(), &[StorageReply::Available, StorageReply::Rejected]);
    assert_eq!(run.outcome(), Some(Err(PersistenceError::Internal(StorageFault::Encode))));
    assert_eq!(calls.len(), 3);
    let (run, _) = replay(
        disk_write(),
        &[StorageReply::Available, StorageReply::Completed, StorageReply::Rejected],
    );
    assert_eq!(run.outcome(), Some(Err(PersistenceError::Internal(StorageFault::Flush))));
}

#[test]
fn a_reply_out_of_turn_ends_the_task() {
    let (run, _) = replay(adapter().load_collab_from_disk("d"), &[StorageReply::Completed]);
    assert_eq!(run.outcome(), Some(Err(PersistenceError::Internal(StorageFault::OutOfTurn))));
    let (run, _) = replay(
        adapter().save_collab_to_disk("d"),
        &[StorageReply::Available, StorageReply::Present],
    );
    assert_eq!(run.outcome(), Some(Err(PersistenceError::Internal(StorageFault::OutOfTurn))));
    let (run, _) = replay(
        adapter().load_collab_from_disk("d"),
        &[StorageReply::Available, StorageReply::Present, StorageReply::Completed, StorageReply::Rejected],
    );
    assert_eq!(run.outcome(), Some(Err(PersistenceError::Internal(StorageFault::OutOfTurn))));
}

#[test]
fn every_task_ends_within_five_replies() {
    let replies = [
        StorageReply::Available,
        StorageReply::Dropped,
        StorageReply::Present,
        StorageReply::Absent,
        StorageReply::Completed,
        StorageReply::Rejected,
    ];
    for task in [StorageTask::Load, StorageTask::Save, StorageTask::DiskWrite] {
        let mut script = [0usize; 5];
        loop {
            let key = StorageKey { uid: 1, workspace_id: "w".into(), object_id: "o".into() };
            let mut run = StorageRun::begin(task, key);
            for index in script {
                run = run.advance(replies[index]);
            }
            assert!(run.outcome().is_some());
            let mut position = 0;
            while position < script.len() {
                script[position] += 1;
                if script[position] < replies.len() {
                    break;
                }
                script[position] = 0;
                position += 1;
            }
            if position == script.len() {
                break;
            }
        }
    }
}
