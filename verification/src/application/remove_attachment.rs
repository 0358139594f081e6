//! Use case: remove the attachment of a document.
//!
//! The file is deleted first and the record only after it; a failure to delete
//! the file leaves the record in place.

use crate::domain::attachment::{Attachment, AttachmentRepository, is_no_attachment_error, no_attachment_error};
use crate::infrastructure::attachment_storage::AttachmentStorage;
use crate::shared::errors::SanchayaError;
use vstd::prelude::*;

verus! {

/// Where a removal run stands.
pub enum RemoveStage {
    /// Looking up the document's record; `missing` is the answer where there
    /// is none.
    FindingRecord { missing: SanchayaError },
    /// Deleting the stored file.
    DeletingFile,
    /// Deleting the record.
    DeletingRecord,
    Finished,
}

/// What a removal run does next.
pub enum RemoveAction {
    /// `find_by_document_id` for the document.
    FindRecord,
    /// `delete` the stored file of this name.
    DeleteFile(String),
    /// `delete_by_document_id` for the document.
    DeleteRecord,
    /// Answer the caller.
    Finish(Result<(), SanchayaError>),
}

/// What came back from the last action.
pub enum RemoveEvent {
    Found(Result<Option<Attachment>, SanchayaError>),
    Completed(Result<(), SanchayaError>),
}

/// The event fits the stage: a lookup result while looking up, a completion
/// otherwise, and nothing once finished.
pub open spec fn remove_event_fits(stage: RemoveStage, event: RemoveEvent) -> bool {
    match stage {
        RemoveStage::FindingRecord { .. } => event is Found,
        RemoveStage::Finished => false,
        _ => event is Completed,
    }
}

/// The next stage and action of a removal run.
pub open spec fn remove_transition(stage: RemoveStage, event: RemoveEvent) -> (RemoveStage, RemoveAction) {
    match stage {
        RemoveStage::FindingRecord { missing } => match event {
            RemoveEvent::Found(Err(e)) => (RemoveStage::Finished, RemoveAction::Finish(Err(e))),
            RemoveEvent::Found(Ok(None)) => (RemoveStage::Finished, RemoveAction::Finish(Err(missing))),
            RemoveEvent::Found(Ok(Some(a))) => (
                RemoveStage::DeletingFile,
                RemoveAction::DeleteFile(a.stored_filename),
            ),
            RemoveEvent::Completed(_) => (RemoveStage::Finished, RemoveAction::Finish(Ok(()))),
        },
        RemoveStage::DeletingFile => match event {
            RemoveEvent::Completed(Err(e)) => (RemoveStage::Finished, RemoveAction::Finish(Err(e))),
            _ => (RemoveStage::DeletingRecord, RemoveAction::DeleteRecord),
        },
        RemoveStage::DeletingRecord => match event {
            RemoveEvent::Completed(result) => (RemoveStage::Finished, RemoveAction::Finish(result)),
            RemoveEvent::Found(_) => (RemoveStage::Finished, RemoveAction::Finish(Ok(()))),
        },
        RemoveStage::Finished => (RemoveStage::Finished, RemoveAction::Finish(Ok(()))),
    }
}

/// How many steps a run has left at most.
pub open spec fn remove_steps_left(stage: RemoveStage) -> nat {
    match stage {
        RemoveStage::FindingRecord { .. } => 3,
        RemoveStage::DeletingFile => 2,
        RemoveStage::DeletingRecord => 1,
        RemoveStage::Finished => 0,
    }
}

/// Decides the next step of a removal run from what the last action gave
/// back.
pub fn remove_step(stage: RemoveStage, event: RemoveEvent) -> (r: (RemoveStage, RemoveAction))
    requires
        remove_event_fits(stage, event),
    ensures
        r == remove_transition(stage, event),
        remove_steps_left(r.0) < remove_steps_left(stage),
        r.1 is Finish <==> r.0 is Finished,
        !(r.0 is FindingRecord),
        !(r.1 is FindRecord),
{
    match stage {
        RemoveStage::FindingRecord { missing } => match event {
            RemoveEvent::Found(Err(e)) => (RemoveStage::Finished, RemoveAction::Finish(Err(e))),
            RemoveEvent::Found(Ok(None)) => (RemoveStage::Finished, RemoveAction::Finish(Err(missing))),
            RemoveEvent::Found(Ok(Some(a))) => (
                RemoveStage::DeletingFile,
                RemoveAction::DeleteFile(a.stored_filename),
            ),
            RemoveEvent::Completed(_) => (RemoveStage::Finished, RemoveAction::Finish(Ok(()))),
        },
        RemoveStage::DeletingFile => match event {
            RemoveEvent::Completed(Err(e)) => (RemoveStage::Finished, RemoveAction::Finish(Err(e))),
            _ => (RemoveStage::DeletingRecord, RemoveAction::DeleteRecord),
        },
        RemoveStage::DeletingRecord => match event {
            RemoveEvent::Completed(result) => (RemoveStage::Finished, RemoveAction::Finish(result)),
            RemoveEvent::Found(_) => (RemoveStage::Finished, RemoveAction::Finish(Ok(()))),
        },
        RemoveStage::Finished => (RemoveStage::Finished, RemoveAction::Finish(Ok(()))),
    }
}

/// The last action of a whole removal run in which the lookup gives `found`,
/// deleting the file `file_deleted` and deleting the record `record_deleted`;
/// a run ends as soon as it finishes.
pub open spec fn remove_run(
    missing: SanchayaError,
    found: Result<Option<Attachment>, SanchayaError>,
    file_deleted: Result<(), SanchayaError>,
    record_deleted: Result<(), SanchayaError>,
) -> RemoveAction {
    let first = remove_transition(RemoveStage::FindingRecord { missing }, RemoveEvent::Found(found));
    if first.0 is Finished {
        first.1
    } else {
        let second = remove_transition(first.0, RemoveEvent::Completed(file_deleted));
        if second.0 is Finished {
            second.1
        } else {
            remove_transition(second.0, RemoveEvent::Completed(record_deleted)).1
        }
    }
}

/// A removal run answers the lookup's failure, the no-attachment answer
/// where there is no record, the failure to delete the file (the record then
/// stays), or else what deleting the record gives; the file it deletes is the
/// one the record names.
pub proof fn lemma_remove_run_answer(
    missing: SanchayaError,
    found: Result<Option<Attachment>, SanchayaError>,
    file_deleted: Result<(), SanchayaError>,
    record_deleted: Result<(), SanchayaError>,
)
    ensures
        remove_run(missing, found, file_deleted, record_deleted) == RemoveAction::Finish(
            match found {
                Err(e) => Err(e),
                Ok(None) => Err(missing),
                Ok(Some(_)) => match file_deleted {
                    Err(e) => Err(e),
                    Ok(_) => record_deleted,
                },
            },
        ),
        found matches Ok(Some(a)) ==> remove_transition(
            RemoveStage::FindingRecord { missing },
            RemoveEvent::Found(found),
        ).1 == RemoveAction::DeleteFile(a.stored_filename),
{
}

/// The record is deleted only right after its file was deleted without
/// error.
pub proof fn lemma_remove_record_only_after_file(stage: RemoveStage, event: RemoveEvent)
    requires
        remove_event_fits(stage, event),
        remove_transition(stage, event).1 is DeleteRecord,
    ensures
        stage is DeletingFile,
        event matches RemoveEvent::Completed(Ok(_)),
{
}

/// The first stage of a removal run for `document_id`.
pub fn start_removal(document_id: &str) -> (r: RemoveStage)
    ensures
        r matches RemoveStage::FindingRecord { missing } && is_no_attachment_error(missing, document_id@),
{
    RemoveStage::FindingRecord { missing: no_attachment_error(document_id) }
}

/// The stage and action of a removal run after its first `k` events: the
/// lookup's answer `found`, then the completions `file_deleted` and
/// `record_deleted`.
pub open spec fn remove_state(
    k: nat,
    missing: SanchayaError,
    found: Result<Option<Attachment>, SanchayaError>,
    file_deleted: Result<(), SanchayaError>,
    record_deleted: Result<(), SanchayaError>,
) -> (RemoveStage, RemoveAction) {
    let first = remove_transition(RemoveStage::FindingRecord { missing }, RemoveEvent::Found(found));
    let second = remove_transition(first.0, RemoveEvent::Completed(file_deleted));
    let third = remove_transition(second.0, RemoveEvent::Completed(record_deleted));
    if k == 0 {
        (RemoveStage::FindingRecord { missing }, RemoveAction::FindRecord)
    } else if k == 1 {
        first
    } else if k == 2 {
        second
    } else {
        third
    }
}

/// A removal run has taken `k` events without finishing before the last of
/// them.
pub open spec fn remove_ongoing(
    k: nat,
    missing: SanchayaError,
    found: Result<Option<Attachment>, SanchayaError>,
    file_deleted: Result<(), SanchayaError>,
    record_deleted: Result<(), SanchayaError>,
) -> bool {
    &&& k <= 3
    &&& forall|j: nat| j < k ==> !(#[trigger] remove_state(j, missing, found, file_deleted, record_deleted).0 is Finished)
}

/// A removal run that has finished after `k` events has answered as the
/// whole run does, and has taken every event that its answer depends on.
proof fn lemma_finished_removal_is_run(
    k: nat,
    missing: SanchayaError,
    found: Result<Option<Attachment>, SanchayaError>,
    file_deleted: Result<(), SanchayaError>,
    record_deleted: Result<(), SanchayaError>,
)
    requires
        remove_ongoing(k, missing, found, file_deleted, record_deleted),
        remove_state(k, missing, found, file_deleted, record_deleted).0 is Finished,
    ensures
        remove_state(k, missing, found, file_deleted, record_deleted).1 == remove_run(
            missing,
            found,
            file_deleted,
            record_deleted,
        ),
        found matches Ok(Some(_)) ==> k >= 2,
        found matches Ok(Some(_)) && file_deleted is Ok ==> k >= 3,
{
    assert(!(remove_state(0, missing, found, file_deleted, record_deleted).0 is Finished));
    if k >= 2 {
        assert(!(remove_state(1, missing, found, file_deleted, record_deleted).0 is Finished));
    }
    if k >= 3 {
        assert(!(remove_state(2, missing, found, file_deleted, record_deleted).0 is Finished));
    }
}

/// Removes the attachment of the document: its stored file, then its record.
/// The steps and the answer follow `remove_transition` from `start_removal`,
/// with what the repository and the storage give back: the lookup's failure,
/// the no-attachment error where there is no record, the failure to delete the
/// file named by the record (the record then stays), or else what deleting the
/// record gives.
pub fn execute(
    document_id: &str,
    attachment_repo: &dyn AttachmentRepository,
    storage: &dyn AttachmentStorage,
) -> (r: Result<(), SanchayaError>)
    ensures
        exists|found: Result<Option<Attachment>, SanchayaError>| {
            &&& attachment_repo.finds(document_id@, found)
            &&& match found {
                Err(e) => r == Err::<(), SanchayaError>(e),
                Ok(None) => r matches Err(e) && is_no_attachment_error(e, document_id@),
                Ok(Some(a)) => exists|file_deleted: Result<(), SanchayaError>| {
                    &&& storage.deletes(document_id@, a.stored_filename@, file_deleted)
                    &&& match file_deleted {
                        Err(e) => r == Err::<(), SanchayaError>(e),
                        Ok(_) => attachment_repo.deletes(document_id@, r),
                    }
                },
            }
        },
{
    let mut stage = start_removal(document_id);
    let mut action = RemoveAction::FindRecord;
    let ghost missing = stage->missing;
    let ghost mut step: nat = 0;
    let ghost mut found_g: Result<Option<Attachment>, SanchayaError> = arbitrary();
    let ghost mut file_g: Result<(), SanchayaError> = arbitrary();
    let ghost mut record_g: Result<(), SanchayaError> = arbitrary();
    #[verifier::loop_isolation(false)]
    loop
        invariant
            is_no_attachment_error(missing, document_id@),
            remove_ongoing(step, missing, found_g, file_g, record_g),
            (stage, action) == remove_state(step, missing, found_g, file_g, record_g),
            step >= 1 ==> attachment_repo.finds(document_id@, found_g),
            step >= 2 ==> (found_g matches Ok(Some(a)) && storage.deletes(document_id@, a.stored_filename@, file_g)),
            step >= 3 ==> attachment_repo.deletes(document_id@, record_g),
        decreases remove_steps_left(stage),
    {
        let event = match action {
            RemoveAction::FindRecord => {
                let found = attachment_repo.find_by_document_id(document_id);
                proof {
                    found_g = found;
                }
                RemoveEvent::Found(found)
            },
            RemoveAction::DeleteFile(name) => {
                let file_deleted = storage.delete(document_id, name.as_str());
                proof {
                    file_g = file_deleted;
                }
                RemoveEvent::Completed(file_deleted)
            },
            RemoveAction::DeleteRecord => {
                let record_deleted = attachment_repo.delete_by_document_id(document_id);
                proof {
                    record_g = record_deleted;
                }
                RemoveEvent::Completed(record_deleted)
            },
            RemoveAction::Finish(answer) => {
                proof {
                    lemma_finished_removal_is_run(step, missing, found_g, file_g, record_g);
                    lemma_remove_run_answer(missing, found_g, file_g, record_g);
                    assert(attachment_repo.finds(document_id@, found_g));
                }
                return answer;
            },
        };
        let (next_stage, next_action) = remove_step(stage, event);
        stage = next_stage;
        action = next_action;
        proof {
            step = step + 1;
        }
    }
}

} // verus!
