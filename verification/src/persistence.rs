//! The persistence adapter: how a core is loaded from and saved to the
//! storage handle, which is only ever held weakly.
//!
//! Each of the three storage tasks is a short run of calls on the storage
//! handle. The library decides, from the reply to one call, which call comes
//! next or how the task ends; the caller makes the calls.

use crate::ids::Uuid;
use vstd::prelude::*;

verus! {

/// The tasks that touch the storage handle.
#[derive(Clone, Copy, Debug, PartialEq, Eq, Structural)]
pub enum StorageTask {
    /// Replay the durable updates of an object into its core.
    Load,
    /// Store the compacted snapshot that the core hands over.
    Save,
    /// Encode the core and store the compacted snapshot.
    DiskWrite,
}

/// The step of a storage task that failed.
#[derive(Clone, Copy, Debug, PartialEq, Eq, Structural)]
pub enum StorageFault {
    /// The core could not be encoded.
    Encode,
    /// The snapshot could not be written.
    Flush,
    /// The write transaction could not be committed.
    Commit,
    /// A reply was given that answers no call of the task.
    OutOfTurn,
}

/// Why a storage task failed.
#[derive(Clone, Copy, Debug, PartialEq, Eq, Structural)]
pub enum PersistenceError {
    /// The storage handle was gone when the task began.
    StorageUnavailable,
    /// The storage engine or the encoder refused a step.
    Internal(StorageFault),
}

/// How a storage task ended where it did not fail.
#[derive(Clone, Copy, Debug, PartialEq, Eq, Structural)]
pub enum StorageReport {
    /// The storage handle was gone; nothing was written.
    Skipped,
    /// Storage holds nothing for the object; nothing was replayed.
    NothingStored,
    /// The durable updates were replayed.
    Replayed,
    /// The replay broke off; the core holds what was replayed until then.
    ReplayFailed,
    /// The snapshot was written and committed.
    Saved,
}

/// The call that a storage task waits for, or its end.
#[derive(Clone, Copy, Debug, PartialEq, Eq)]
pub enum StorageStage {
    /// Upgrading the weak reference to the storage handle.
    Upgrading,
    /// Asking whether storage holds anything for the object.
    CheckingExistence,
    /// Replaying the durable updates in a transaction on the core.
    Replaying,
    /// Committing the transaction on the core; the flag says whether the
    /// replay went through.
    CommittingCore(bool),
    /// Encoding the core as a compacted snapshot.
    Encoding,
    /// Writing the snapshot in a write transaction.
    Flushing,
    /// Committing the write transaction.
    Committing,
    /// The task has ended.
    Done(Result<StorageReport, PersistenceError>),
}

/// What the caller is to do for a stage.
#[derive(Clone, Copy, Debug, PartialEq, Eq)]
pub enum StorageCall {
    Upgrade,
    Exists,
    Replay,
    CommitCore,
    Encode,
    Flush,
    Commit,
    Return(Result<StorageReport, PersistenceError>),
}

/// What the caller reports of the call it made.
#[derive(Clone, Copy, Debug, PartialEq, Eq, Structural)]
pub enum StorageReply {
    /// The storage handle is alive.
    Available,
    /// The storage handle is gone.
    Dropped,
    /// Storage holds an entry for the object.
    Present,
    /// Storage holds no entry for the object.
    Absent,
    /// The call went through.
    Completed,
    /// The call failed.
    Rejected,
}

/// How a task ends when a reply answers no call of it.
pub open spec fn out_of_turn() -> StorageStage {
    StorageStage::Done(Err(PersistenceError::Internal(StorageFault::OutOfTurn)))
}

/// The stage that follows `stage` of `task` on `reply`.
///
/// A dead storage handle ends a load or a save with `StorageUnavailable`
/// and lets a disk write end without having written. A load replays only
/// what exists, and a broken replay still lets the load succeed. A save or a
/// disk write fails with the first step that is refused.
pub open spec fn next_storage_stage(
    task: StorageTask,
    stage: StorageStage,
    reply: StorageReply,
) -> StorageStage {
    match (stage, reply) {
        (StorageStage::Done(outcome), _) => StorageStage::Done(outcome),
        (StorageStage::Upgrading, StorageReply::Available) => match task {
            StorageTask::Load => StorageStage::CheckingExistence,
            StorageTask::Save => StorageStage::Flushing,
            StorageTask::DiskWrite => StorageStage::Encoding,
        },
        (StorageStage::Upgrading, StorageReply::Dropped) => match task {
            StorageTask::DiskWrite => StorageStage::Done(Ok(StorageReport::Skipped)),
            _ => StorageStage::Done(Err(PersistenceError::StorageUnavailable)),
        },
        (StorageStage::CheckingExistence, StorageReply::Present) => StorageStage::Replaying,
        (StorageStage::CheckingExistence, StorageReply::Absent) => StorageStage::Done(
            Ok(StorageReport::NothingStored),
        ),
        (StorageStage::Replaying, StorageReply::Completed) => StorageStage::CommittingCore(true),
        (StorageStage::Replaying, StorageReply::Rejected) => StorageStage::CommittingCore(false),
        (StorageStage::CommittingCore(replayed), StorageReply::Completed) => StorageStage::Done(
            Ok(
                if replayed {
                    StorageReport::Replayed
                } else {
                    StorageReport::ReplayFailed
                },
            ),
        ),
        (StorageStage::Encoding, StorageReply::Completed) => StorageStage::Flushing,
        (StorageStage::Encoding, StorageReply::Rejected) => StorageStage::Done(
            Err(PersistenceError::Internal(StorageFault::Encode)),
        ),
        (StorageStage::Flushing, StorageReply::Completed) => StorageStage::Committing,
        (StorageStage::Flushing, StorageReply::Rejected) => StorageStage::Done(
            Err(PersistenceError::Internal(StorageFault::Flush)),
        ),
        (StorageStage::Committing, StorageReply::Completed) => StorageStage::Done(
            Ok(StorageReport::Saved),
        ),
        (StorageStage::Committing, StorageReply::Rejected) => StorageStage::Done(
            Err(PersistenceError::Internal(StorageFault::Commit)),
        ),
        _ => out_of_turn(),
    }
}

/// The call that a stage waits for.
pub open spec fn call_of(stage: StorageStage) -> StorageCall {
    match stage {
        StorageStage::Upgrading => StorageCall::Upgrade,
        StorageStage::CheckingExistence => StorageCall::Exists,
        StorageStage::Replaying => StorageCall::Replay,
        StorageStage::CommittingCore(_) => StorageCall::CommitCore,
        StorageStage::Encoding => StorageCall::Encode,
        StorageStage::Flushing => StorageCall::Flush,
        StorageStage::Committing => StorageCall::Commit,
        StorageStage::Done(outcome) => StorageCall::Return(outcome),
    }
}

/// Whether a stage belongs to a task: a load never encodes or writes, a save
/// or a disk write never replays, and only a disk write encodes.
pub open spec fn stage_of_task(task: StorageTask, stage: StorageStage) -> bool {
    match stage {
        StorageStage::Upgrading => true,
        StorageStage::CheckingExistence | StorageStage::Replaying | StorageStage::CommittingCore(
            _,
        ) => task == StorageTask::Load,
        StorageStage::Encoding => task == StorageTask::DiskWrite,
        StorageStage::Flushing | StorageStage::Committing => task != StorageTask::Load,
        StorageStage::Done(outcome) => match outcome {
            Ok(StorageReport::Skipped) => task == StorageTask::DiskWrite,
            Ok(StorageReport::Saved) => task != StorageTask::Load,
            Ok(_) => task == StorageTask::Load,
            Err(PersistenceError::StorageUnavailable) => task != StorageTask::DiskWrite,
            Err(PersistenceError::Internal(StorageFault::Encode)) => task == StorageTask::DiskWrite,
            Err(PersistenceError::Internal(StorageFault::OutOfTurn)) => true,
            Err(PersistenceError::Internal(_)) => task != StorageTask::Load,
        },
    }
}

/// The key under which storage holds an object.
#[derive(Debug)]
pub struct StorageKey {
    pub uid: i64,
    pub workspace_id: String,
    pub object_id: String,
}

/// One run of a storage task for one object.
#[derive(Debug)]
pub struct StorageRun {
    pub task: StorageTask,
    pub key: StorageKey,
    pub stage: StorageStage,
}

impl StorageRun {
    /// A run of `task` for the object under `key`, before its first call.
    pub fn begin(task: StorageTask, key: StorageKey) -> (run: Self)
        ensures
            run.task == task,
            run.key == key,
            run.stage == StorageStage::Upgrading,
            run.well_formed(),
    {
        StorageRun { task, key, stage: StorageStage::Upgrading }
    }

    /// Whether the run is at a stage of its task.
    pub open spec fn well_formed(&self) -> bool {
        stage_of_task(self.task, self.stage)
    }

    /// What the caller is to do now.
    pub fn pending(&self) -> (call: StorageCall)
        ensures
            call == call_of(self.stage),
    {
        match self.stage {
            StorageStage::Upgrading => StorageCall::Upgrade,
            StorageStage::CheckingExistence => StorageCall::Exists,
            StorageStage::Replaying => StorageCall::Replay,
            StorageStage::CommittingCore(_) => StorageCall::CommitCore,
            StorageStage::Encoding => StorageCall::Encode,
            StorageStage::Flushing => StorageCall::Flush,
            StorageStage::Committing => StorageCall::Commit,
            StorageStage::Done(outcome) => StorageCall::Return(outcome),
        }
    }

    /// How the run ended, once it has.
    pub fn outcome(&self) -> (outcome: Option<Result<StorageReport, PersistenceError>>)
        ensures
            match self.stage {
                StorageStage::Done(ended) => outcome == Some(ended),
                _ => outcome is None,
            },
    {
        match self.stage {
            StorageStage::Done(ended) => Some(ended),
            _ => None,
        }
    }

    /// Takes the reply to the pending call and moves to the next stage.
    pub fn advance(self, reply: StorageReply) -> (next: Self)
        ensures
            next.task == self.task,
            next.key == self.key,
            next.stage == next_storage_stage(self.task, self.stage, reply),
            self.well_formed() ==> next.well_formed(),
    {
        let task = self.task;
        let failed = StorageStage::Done(Err(PersistenceError::Internal(StorageFault::OutOfTurn)));
        let stage = match self.stage {
            StorageStage::Done(outcome) => StorageStage::Done(outcome),
            StorageStage::Upgrading => match reply {
                StorageReply::Available => match task {
                    StorageTask::Load => StorageStage::CheckingExistence,
                    StorageTask::Save => StorageStage::Flushing,
                    StorageTask::DiskWrite => StorageStage::Encoding,
                },
                StorageReply::Dropped => match task {
                    StorageTask::DiskWrite => StorageStage::Done(Ok(StorageReport::Skipped)),
                    _ => StorageStage::Done(Err(PersistenceError::StorageUnavailable)),
                },
                _ => failed,
            },
            StorageStage::CheckingExistence => match reply {
                StorageReply::Present => StorageStage::Replaying,
                StorageReply::Absent => StorageStage::Done(Ok(StorageReport::NothingStored)),
                _ => failed,
            },
            StorageStage::Replaying => match reply {
                StorageReply::Completed => StorageStage::CommittingCore(true),
                StorageReply::Rejected => StorageStage::CommittingCore(false),
                _ => failed,
            },
            StorageStage::CommittingCore(replayed) => match reply {
                StorageReply::Completed => if replayed {
                    StorageStage::Done(Ok(StorageReport::Replayed))
                } else {
                    StorageStage::Done(Ok(StorageReport::ReplayFailed))
                },
                _ => failed,
            },
            StorageStage::Encoding => fallible(reply, StorageStage::Flushing, StorageFault::Encode),
            StorageStage::Flushing => fallible(reply, StorageStage::Committing, StorageFault::Flush),
            StorageStage::Committing => fallible(
                reply,
                StorageStage::Done(Ok(StorageReport::Saved)),
                StorageFault::Commit,
            ),
        };
        StorageRun { task, key: self.key, stage }
    }
}

/// The stage after a call that either goes through or ends the task with a
/// fault.
fn fallible(reply: StorageReply, then: StorageStage, fault: StorageFault) -> (next: StorageStage)
    ensures
        reply == StorageReply::Completed ==> next == then,
        reply == StorageReply::Rejected ==> next == StorageStage::Done(
            Err(PersistenceError::Internal(fault)),
        ),
        reply != StorageReply::Completed && reply != StorageReply::Rejected ==> next
            == out_of_turn(),
{
    match reply {
        StorageReply::Completed => then,
        StorageReply::Rejected => StorageStage::Done(Err(PersistenceError::Internal(fault))),
        _ => StorageStage::Done(Err(PersistenceError::Internal(StorageFault::OutOfTurn))),
    }
}

/// The persistence adapter of one user in one workspace. The weak reference
/// to the storage handle stays with the caller.
#[derive(Clone, Copy, Debug, PartialEq, Eq, Structural)]
pub struct CollabPersistenceImpl {
    pub uid: i64,
    pub workspace_id: Uuid,
}

/// Where the content of a new core comes from.
#[derive(Debug)]
pub enum DataSource {
    /// From storage, through the adapter if there is one.
    Disk(Option<CollabPersistenceImpl>),
    /// From an encoded payload.
    DocState(Vec<u8>),
}

impl CollabPersistenceImpl {
    /// The adapter for the objects of `uid` in `workspace_id`.
    pub fn new(uid: i64, workspace_id: Uuid) -> (adapter: Self)
        ensures
            adapter.uid == uid,
            adapter.workspace_id == workspace_id,
    {
        CollabPersistenceImpl { uid, workspace_id }
    }

    /// The data source that loads through this adapter.
    pub fn into_data_source(self) -> (source: DataSource)
        ensures
            source == DataSource::Disk(Some(self)),
    {
        DataSource::Disk(Some(self))
    }

    /// The key of an object of this adapter's user and workspace.
    pub fn storage_key(&self, object_id: &str) -> (key: StorageKey)
        ensures
            key.uid == self.uid,
            key.workspace_id@ == self.workspace_id.text(),
            key.object_id@ == object_id@,
    {
        StorageKey {
            uid: self.uid,
            workspace_id: self.workspace_id.to_text(),
            object_id: object_id.to_owned(),
        }
    }

    /// Begins the load of an object into its core.
    pub fn load_collab_from_disk(&self, object_id: &str) -> (run: StorageRun)
        ensures
            run.task == StorageTask::Load,
            run.stage == StorageStage::Upgrading,
            run.key.uid == self.uid,
            run.key.workspace_id@ == self.workspace_id.text(),
            run.key.object_id@ == object_id@,
            run.well_formed(),
    {
        StorageRun::begin(StorageTask::Load, self.storage_key(object_id))
    }

    /// Begins the save of an object's compacted snapshot.
    pub fn save_collab_to_disk(&self, object_id: &str) -> (run: StorageRun)
        ensures
            run.task == StorageTask::Save,
            run.stage == StorageStage::Upgrading,
            run.key.uid == self.uid,
            run.key.workspace_id@ == self.workspace_id.text(),
            run.key.object_id@ == object_id@,
            run.well_formed(),
    {
        StorageRun::begin(StorageTask::Save, self.storage_key(object_id))
    }
}

/// The stage of a task after the replies `replies`, given from `stage` on.
pub open spec fn stage_after(
    task: StorageTask,
    stage: StorageStage,
    replies: Seq<StorageReply>,
) -> StorageStage
    decreases replies.len(),
{
    if replies.len() == 0 {
        stage
    } else {
        next_storage_stage(task, stage_after(task, stage, replies.drop_last()), replies.last())
    }
}

/// A load or a save whose storage handle is gone fails with
/// `StorageUnavailable` at once, and nothing that is reported afterwards
/// changes that: no further call is asked for.
pub proof fn lemma_dropped_handle_is_final(task: StorageTask, later: Seq<StorageReply>)
    requires
        task != StorageTask::DiskWrite,
    ensures
        stage_after(task, StorageStage::Upgrading, seq![StorageReply::Dropped] + later)
            == StorageStage::Done(Err(PersistenceError::StorageUnavailable)),
    decreases later.len(),
{
    let all = seq![StorageReply::Dropped] + later;
    if later.len() == 0 {
        assert(all.drop_last() == Seq::<StorageReply>::empty());
        assert(stage_after(task, StorageStage::Upgrading, all.drop_last())
            == StorageStage::Upgrading);
    } else {
        assert(all.drop_last() == seq![StorageReply::Dropped] + later.drop_last());
        lemma_dropped_handle_is_final(task, later.drop_last());
    }
}

/// A load of an object that storage does not hold replays nothing and
/// succeeds.
pub proof fn lemma_load_of_absent_object()
    ensures
        stage_after(
            StorageTask::Load,
            StorageStage::Upgrading,
            seq![StorageReply::Available, StorageReply::Absent],
        ) == StorageStage::Done(Ok(StorageReport::NothingStored)),
{
    let replies = seq![StorageReply::Available, StorageReply::Absent];
    assert(replies.drop_last() == seq![StorageReply::Available]);
    assert(replies.drop_last().drop_last() == Seq::<StorageReply>::empty());
    assert(stage_after(StorageTask::Load, StorageStage::Upgrading, Seq::empty())
        == StorageStage::Upgrading);
    assert(stage_after(StorageTask::Load, StorageStage::Upgrading, seq![StorageReply::Available])
        == StorageStage::CheckingExistence);
}

/// A task ends after at most five replies, whatever they are.
pub proof fn lemma_task_ends(task: StorageTask, replies: Seq<StorageReply>)
    requires
        replies.len() >= 5,
    ensures
        stage_after(task, StorageStage::Upgrading, replies) is Done,
    decreases replies.len(),
{
    lemma_progress(task, replies);
}

/// The number of stages that a task has left behind.
pub open spec fn progress(stage: StorageStage) -> int {
    match stage {
        StorageStage::Upgrading => 0,
        StorageStage::CheckingExistence | StorageStage::Encoding => 1,
        StorageStage::Replaying | StorageStage::Flushing => 2,
        StorageStage::CommittingCore(_) | StorageStage::Committing => 3,
        StorageStage::Done(_) => 5,
    }
}

/// Each reply moves a task on.
proof fn lemma_progress(task: StorageTask, replies: Seq<StorageReply>)
    ensures
        progress(stage_after(task, StorageStage::Upgrading, replies)) >= replies.len()
            || stage_after(task, StorageStage::Upgrading, replies) is Done,
    decreases replies.len(),
{
    if replies.len() > 0 {
        lemma_progress(task, replies.drop_last());
    }
}

} // verus!
