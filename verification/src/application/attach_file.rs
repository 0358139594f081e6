//! Use case: attach a file to a document, or replace the file it has.
//!
//! The new file is stored first, then its record is saved (or, where the
//! document already had a file, the record is updated), and only then is the
//! old file removed. A failure to store leaves everything as it was; a failure
//! to keep the record removes the newly stored file again.

use crate::domain::attachment::{
    Attachment, AttachmentRepository, assembled_attachment, attachment_input_error,
    lemma_extension_mime_is_supported, mime_for_extension, mime_from_extension,
    valid_attachment_input,
};
use crate::infrastructure::attachment_storage::{AttachmentStorage, as_path, extension_of, path_extension};
use crate::shared::errors::SanchayaError;
use crate::shared::ids::is_uuid_text;
use crate::shared::text::ascii_lower;
use crate::shared::time::{Timestamp, is_clock_reading};
use std::path::PathBuf;
use vstd::prelude::*;

verus! {

/// A request to attach the file at `source_path` to a document.
pub struct AttachFileInput {
    pub document_id: String,
    pub source_path: String,
    pub original_filename: String,
}

/// Where an attachment run stands.
pub enum AttachStage {
    /// Looking up the record of the file that the document has now.
    FindingExisting,
    /// Copying the new file into the vault; `previous` is the stored name of
    /// the file it replaces, if any.
    StoringNewFile { previous: Option<String> },
    /// Keeping the new record.
    KeepingRecord { previous: Option<String> },
    /// Keeping the record failed with `error`: removing the newly stored file.
    RemovingNewFile { error: SanchayaError },
    /// The new record is kept: removing the replaced file.
    RemovingOldFile,
    Finished,
}

/// What an attachment run does next.
pub enum AttachAction {
    /// `find_by_document_id` for the document.
    FindExisting,
    /// `store` the source file under this stored name.
    StoreNewFile(String),
    /// `save` the new record.
    SaveRecord,
    /// `update` the document's record to the new one.
    UpdateRecord,
    /// `delete` the stored file of this name; its result does not change the
    /// answer.
    DeleteFile(String),
    /// Answer the caller.
    Finish(Result<(), SanchayaError>),
}

/// What came back from the last action.
pub enum AttachEvent {
    Found(Result<Option<Attachment>, SanchayaError>),
    Completed(Result<(), SanchayaError>),
}

/// The event fits the stage: a lookup result while looking up, a completion
/// otherwise, and nothing once finished.
pub open spec fn attach_event_fits(stage: AttachStage, event: AttachEvent) -> bool {
    match stage {
        AttachStage::FindingExisting => event is Found,
        AttachStage::Finished => false,
        _ => event is Completed,
    }
}

/// The next stage and action of an attachment run whose new file is stored
/// as `new_file`.
pub open spec fn attach_transition(stage: AttachStage, new_file: String, event: AttachEvent) -> (
    AttachStage,
    AttachAction,
) {
    match stage {
        AttachStage::FindingExisting => match event {
            AttachEvent::Found(Err(e)) => (AttachStage::Finished, AttachAction::Finish(Err(e))),
            AttachEvent::Found(Ok(None)) => (
                AttachStage::StoringNewFile { previous: None },
                AttachAction::StoreNewFile(new_file),
            ),
            AttachEvent::Found(Ok(Some(a))) => (
                AttachStage::StoringNewFile { previous: Some(a.stored_filename) },
                AttachAction::StoreNewFile(new_file),
            ),
            AttachEvent::Completed(_) => (AttachStage::Finished, AttachAction::Finish(Ok(()))),
        },
        AttachStage::StoringNewFile { previous } => match event {
            AttachEvent::Completed(Err(e)) => (AttachStage::Finished, AttachAction::Finish(Err(e))),
            _ => (
                AttachStage::KeepingRecord { previous },
                if previous is Some {
                    AttachAction::UpdateRecord
                } else {
                    AttachAction::SaveRecord
                },
            ),
        },
        AttachStage::KeepingRecord { previous } => match event {
            AttachEvent::Completed(Err(e)) => (
                AttachStage::RemovingNewFile { error: e },
                AttachAction::DeleteFile(new_file),
            ),
            _ => match previous {
                Some(old) => (AttachStage::RemovingOldFile, AttachAction::DeleteFile(old)),
                None => (AttachStage::Finished, AttachAction::Finish(Ok(()))),
            },
        },
        AttachStage::RemovingNewFile { error } => (
            AttachStage::Finished,
            AttachAction::Finish(Err(error)),
        ),
        AttachStage::RemovingOldFile => (AttachStage::Finished, AttachAction::Finish(Ok(()))),
        AttachStage::Finished => (AttachStage::Finished, AttachAction::Finish(Ok(()))),
    }
}

/// How many steps a run has left at most.
pub open spec fn attach_steps_left(stage: AttachStage) -> nat {
    match stage {
        AttachStage::FindingExisting => 4,
        AttachStage::StoringNewFile { .. } => 3,
        AttachStage::KeepingRecord { .. } => 2,
        AttachStage::RemovingNewFile { .. } => 1,
        AttachStage::RemovingOldFile => 1,
        AttachStage::Finished => 0,
    }
}

/// Decides the next step of an attachment run from what the last action
/// gave back.
pub fn attach_step(stage: AttachStage, new_file: &String, event: AttachEvent) -> (r: (
    AttachStage,
    AttachAction,
))
    requires
        attach_event_fits(stage, event),
    ensures
        r == attach_transition(stage, *new_file, event),
        attach_steps_left(r.0) < attach_steps_left(stage),
        r.1 is Finish <==> r.0 is Finished,
        !(r.0 is FindingExisting),
        !(r.1 is FindExisting),
{
    match stage {
        AttachStage::FindingExisting => match event {
            AttachEvent::Found(Err(e)) => (AttachStage::Finished, AttachAction::Finish(Err(e))),
            AttachEvent::Found(Ok(None)) => (
                AttachStage::StoringNewFile { previous: None },
                AttachAction::StoreNewFile(new_file.clone()),
            ),
            AttachEvent::Found(Ok(Some(a))) => (
                AttachStage::StoringNewFile { previous: Some(a.stored_filename) },
                AttachAction::StoreNewFile(new_file.clone()),
            ),
            AttachEvent::Completed(_) => (AttachStage::Finished, AttachAction::Finish(Ok(()))),
        },
        AttachStage::StoringNewFile { previous } => match event {
            AttachEvent::Completed(Err(e)) => (AttachStage::Finished, AttachAction::Finish(Err(e))),
            _ => {
                let action = if previous.is_some() {
                    AttachAction::UpdateRecord
                } else {
                    AttachAction::SaveRecord
                };
                (AttachStage::KeepingRecord { previous }, action)
            },
        },
        AttachStage::KeepingRecord { previous } => match event {
            AttachEvent::Completed(Err(e)) => (
                AttachStage::RemovingNewFile { error: e },
                AttachAction::DeleteFile(new_file.clone()),
            ),
            _ => match previous {
                Some(old) => (AttachStage::RemovingOldFile, AttachAction::DeleteFile(old)),
                None => (AttachStage::Finished, AttachAction::Finish(Ok(()))),
            },
        },
        AttachStage::RemovingNewFile { error } => (
            AttachStage::Finished,
            AttachAction::Finish(Err(error)),
        ),
        AttachStage::RemovingOldFile => (AttachStage::Finished, AttachAction::Finish(Ok(()))),
        AttachStage::Finished => (AttachStage::Finished, AttachAction::Finish(Ok(()))),
    }
}

/// The answer of an attachment run: the first failure among the lookup, the
/// store and the keeping of the record, and success otherwise.
pub open spec fn attach_answer(
    found: Result<Option<Attachment>, SanchayaError>,
    stored: Result<(), SanchayaError>,
    kept: Result<(), SanchayaError>,
) -> Result<(), SanchayaError> {
    match found {
        Err(e) => Err(e),
        Ok(_) => match stored {
            Err(e) => Err(e),
            Ok(_) => match kept {
                Err(e) => Err(e),
                Ok(_) => Ok(()),
            },
        },
    }
}

/// The last action of a whole attachment run in which the lookup gives
/// `found`, the store `stored`, keeping the record `kept` and the removal of a
/// file `removal`; a run ends as soon as it finishes.
pub open spec fn attach_run(
    new_file: String,
    found: Result<Option<Attachment>, SanchayaError>,
    stored: Result<(), SanchayaError>,
    kept: Result<(), SanchayaError>,
    removal: Result<(), SanchayaError>,
) -> AttachAction {
    let first = attach_transition(AttachStage::FindingExisting, new_file, AttachEvent::Found(found));
    if first.0 is Finished {
        first.1
    } else {
        let second = attach_transition(first.0, new_file, AttachEvent::Completed(stored));
        if second.0 is Finished {
            second.1
        } else {
            let third = attach_transition(second.0, new_file, AttachEvent::Completed(kept));
            if third.0 is Finished {
                third.1
            } else {
                attach_transition(third.0, new_file, AttachEvent::Completed(removal)).1
            }
        }
    }
}

/// Every attachment run ends by answering the first failure among the
/// lookup, the store and the keeping of the record, or success; whether a file
/// could be removed afterwards never changes the answer.
pub proof fn lemma_attach_run_answer(
    new_file: String,
    found: Result<Option<Attachment>, SanchayaError>,
    stored: Result<(), SanchayaError>,
    kept: Result<(), SanchayaError>,
    removal: Result<(), SanchayaError>,
)
    ensures
        attach_run(new_file, found, stored, kept, removal) == AttachAction::Finish(
            attach_answer(found, stored, kept),
        ),
{
}

/// The record of the new file replaces the old record by an update exactly
/// when the document already had a file; otherwise it is saved as a new one.
pub proof fn lemma_attach_updates_only_when_replacing(
    new_file: String,
    found: Result<Option<Attachment>, SanchayaError>,
)
    requires
        found is Ok,
    ensures
        ({
            let first = attach_transition(AttachStage::FindingExisting, new_file, AttachEvent::Found(found));
            let second = attach_transition(first.0, new_file, AttachEvent::Completed(Ok(())));
            &&& first.1 == AttachAction::StoreNewFile(new_file)
            &&& (found matches Ok(Some(_)) ==> second.1 is UpdateRecord)
            &&& (found matches Ok(None) ==> second.1 is SaveRecord)
        }),
{
}

/// A run deletes a stored file in two cases only: the new file, right after
/// keeping its record failed; and the replaced file, right after the new
/// record was kept. So a failed store deletes nothing, and the old file goes
/// only once the new record stands.
pub proof fn lemma_attach_deletions(stage: AttachStage, new_file: String, event: AttachEvent, name: String)
    requires
        attach_event_fits(stage, event),
        attach_transition(stage, new_file, event).1 == AttachAction::DeleteFile(name),
    ensures
        ({
            ||| stage is KeepingRecord && (event matches AttachEvent::Completed(Err(_))) && name == new_file
            ||| (stage matches AttachStage::KeepingRecord { previous: Some(old) } && (event matches AttachEvent::Completed(Ok(_)))
                && name == old)
        }),
{
}

/// Whether the store of the new file succeeded, as a run takes it.
pub open spec fn store_outcome(stored: Result<PathBuf, SanchayaError>) -> Result<(), SanchayaError> {
    match stored {
        Ok(_) => Ok(()),
        Err(e) => Err(e),
    }
}

/// The stage and action of a run after its first `k` events, the events
/// being the lookup's answer `found`, then the completions `stored`, `kept`
/// and `removal`.
pub open spec fn attach_state(
    k: nat,
    new_file: String,
    found: Result<Option<Attachment>, SanchayaError>,
    stored: Result<(), SanchayaError>,
    kept: Result<(), SanchayaError>,
    removal: Result<(), SanchayaError>,
) -> (AttachStage, AttachAction) {
    let first = attach_transition(AttachStage::FindingExisting, new_file, AttachEvent::Found(found));
    let second = attach_transition(first.0, new_file, AttachEvent::Completed(stored));
    let third = attach_transition(second.0, new_file, AttachEvent::Completed(kept));
    let fourth = attach_transition(third.0, new_file, AttachEvent::Completed(removal));
    if k == 0 {
        (AttachStage::FindingExisting, AttachAction::FindExisting)
    } else if k == 1 {
        first
    } else if k == 2 {
        second
    } else if k == 3 {
        third
    } else {
        fourth
    }
}

/// A run has taken `k` events without finishing before the last of them.
pub open spec fn attach_ongoing(
    k: nat,
    new_file: String,
    found: Result<Option<Attachment>, SanchayaError>,
    stored: Result<(), SanchayaError>,
    kept: Result<(), SanchayaError>,
    removal: Result<(), SanchayaError>,
) -> bool {
    &&& k <= 4
    &&& forall|j: nat| j < k ==> !(#[trigger] attach_state(j, new_file, found, stored, kept, removal).0 is Finished)
}

/// A run that has finished after `k` events has answered as the whole run
/// does.
proof fn lemma_finished_state_is_run(
    k: nat,
    new_file: String,
    found: Result<Option<Attachment>, SanchayaError>,
    stored: Result<(), SanchayaError>,
    kept: Result<(), SanchayaError>,
    removal: Result<(), SanchayaError>,
)
    requires
        attach_ongoing(k, new_file, found, stored, kept, removal),
        attach_state(k, new_file, found, stored, kept, removal).0 is Finished,
    ensures
        attach_state(k, new_file, found, stored, kept, removal).1 == attach_run(
            new_file,
            found,
            stored,
            kept,
            removal,
        ),
        found is Ok ==> k >= 2,
        found is Ok && stored is Ok ==> k >= 3,
{
    assert(!(attach_state(0, new_file, found, stored, kept, removal).0 is Finished));
    if k >= 2 {
        assert(!(attach_state(1, new_file, found, stored, kept, removal).0 is Finished));
    }
    if k >= 3 {
        assert(!(attach_state(2, new_file, found, stored, kept, removal).0 is Finished));
    }
    if k >= 4 {
        assert(!(attach_state(3, new_file, found, stored, kept, removal).0 is Finished));
    }
}

/// The answer of an attachment run that attaches `a`, made of the run's
/// answer.
pub open spec fn answer_with(a: Attachment, answer: Result<(), SanchayaError>) -> Result<Attachment, SanchayaError> {
    match answer {
        Ok(_) => Ok(a),
        Err(e) => Err(e),
    }
}

/// A run whose lookup, store and keeping of the record all succeed answers
/// with the record it attached, whatever the lookup found and whatever the
/// removal of a replaced file gives.
pub proof fn lemma_successful_run_attaches(
    a: Attachment,
    found: Result<Option<Attachment>, SanchayaError>,
    stored: Result<PathBuf, SanchayaError>,
    kept: Result<(), SanchayaError>,
)
    requires
        found is Ok,
        stored is Ok,
        kept is Ok,
    ensures
        answer_with(a, attach_answer(found, store_outcome(stored), kept)) == Ok::<Attachment, SanchayaError>(a),
{
}

/// The extension of the source file, or the empty text where it has none.
pub open spec fn source_extension(source_path: Seq<char>) -> Seq<char> {
    match path_extension(source_path) {
        Some(e) => e,
        None => Seq::empty(),
    }
}

/// The file type that the extension of the source path stands for, its
/// letters compared without regard to case.
pub open spec fn source_mime(source_path: Seq<char>) -> Option<Seq<char>> {
    mime_for_extension(ascii_lower(source_extension(source_path)))
}

/// The request and the size read of its source pass every check: the
/// extension is one that the vault takes, the size could be read, and the
/// record's inputs pass `Attachment::new`'s checks.
pub open spec fn attach_input_accepted(input: AttachFileInput, source_size: Result<u64, String>) -> bool {
    &&& source_mime(input.source_path@) matches Some(mime)
    &&& source_size matches Ok(size)
    &&& valid_attachment_input(input.document_id@, input.original_filename@, mime, size)
}

/// `e` is the refusal of the first check that fails: an extension the vault
/// does not take (named in the error), then a size that could not be read,
/// then the record's checks in `Attachment::new`'s order.
pub open spec fn attach_refusal(input: AttachFileInput, source_size: Result<u64, String>, e: SanchayaError) -> bool {
    match source_mime(input.source_path@) {
        None => e matches SanchayaError::UnsupportedFileType(m) && m@ == source_extension(input.source_path@),
        Some(mime) => match source_size {
            Err(t) => e matches SanchayaError::Storage(m) && m@ == "Cannot read file metadata: "@ + t@,
            Ok(size) => attachment_input_error(e, input.document_id@, input.original_filename@, mime, size),
        },
    }
}

/// `a` is a record made for the request: the inputs trimmed, the type from
/// the extension, the size read, a fresh version 4 UUID as id and as stem of
/// the stored name, and a clock reading as creation time.
pub open spec fn prepared_attachment(input: AttachFileInput, source_size: Result<u64, String>, a: Attachment) -> bool {
    &&& source_mime(input.source_path@) matches Some(mime)
    &&& source_size matches Ok(size)
    &&& exists|id: Seq<char>, stem: Seq<char>, now: Timestamp| {
        &&& is_uuid_text(id)
        &&& is_uuid_text(stem)
        &&& is_clock_reading(now)
        &&& assembled_attachment(a, id, stem, now, input.document_id@, input.original_filename@, mime, size)
    }
}

/// Checks a request to attach a file, of `source_size` bytes (or the text of
/// the error met reading its size), and makes its record. Nothing is stored
/// or written.
pub fn prepare(input: &AttachFileInput, source_size: Result<u64, String>) -> (r: Result<Attachment, SanchayaError>)
    ensures
        r is Ok <==> attach_input_accepted(*input, source_size),
        r matches Err(e) ==> attach_refusal(*input, source_size, e),
        r matches Ok(a) ==> prepared_attachment(*input, source_size, a),
{
    let extension = match extension_of(input.source_path.as_str()) {
        Some(e) => e,
        None => {
            proof {
                reveal_strlit("");
            }
            ""
        },
    };
    assert(extension@ == source_extension(input.source_path@));
    let mime_type = match mime_from_extension(extension) {
        Some(m) => m,
        None => {
            return Err(SanchayaError::UnsupportedFileType(String::from_str(extension)));
        },
    };
    proof {
        lemma_extension_mime_is_supported(ascii_lower(extension@));
    }
    let size_bytes = match source_size {
        Ok(n) => n,
        Err(text) => {
            let mut message = String::from_str("Cannot read file metadata: ");
            message.append(text.as_str());
            return Err(SanchayaError::Storage(message));
        },
    };
    Attachment::new(
        input.document_id.clone(),
        input.original_filename.clone(),
        String::from_str(mime_type),
        size_bytes,
    )
}

/// The first stage and action of a run that attaches `new_attachment`, and
/// the name under which its file is to be stored: the record's stored name.
pub fn start_attach(new_attachment: &Attachment) -> (r: (AttachStage, AttachAction, String))
    ensures
        r.0 is FindingExisting,
        r.1 is FindExisting,
        r.2 == new_attachment.stored_filename,
{
    (AttachStage::FindingExisting, AttachAction::FindExisting, new_attachment.stored_filename.clone())
}

/// Attaches the file at `input.source_path`, of `source_size` bytes (or the
/// text of the error met reading its size), to the document.
///
/// The request is checked and its record made by `prepare`; a refusal is
/// answered before the repository or the storage is asked. What happens after
/// that depends on the repository and the storage and follows
/// `attach_transition` from `start_attach`, the file being stored under the
/// record's stored name: the document's record is looked up, the file stored,
/// the record saved (or, where the document had one, updated), and the answer
/// is the prepared record exactly when none of these failed, or else the first
/// failure (`attach_answer`).
pub fn execute(
    input: AttachFileInput,
    source_size: Result<u64, String>,
    attachment_repo: &dyn AttachmentRepository,
    storage: &dyn AttachmentStorage,
) -> (r: Result<Attachment, SanchayaError>)
    ensures
        !attach_input_accepted(input, source_size) ==> (r matches Err(e) && attach_refusal(input, source_size, e)),
        r matches Ok(a) ==> prepared_attachment(input, source_size, a),
        attach_input_accepted(input, source_size) ==> exists|
            a: Attachment,
            found: Result<Option<Attachment>, SanchayaError>,
            stored: Result<PathBuf, SanchayaError>,
            kept: Result<(), SanchayaError>,
        | {
            &&& prepared_attachment(input, source_size, a)
            &&& attachment_repo.finds(input.document_id@, found)
            &&& (found is Ok ==> storage.stores(input.document_id@, a.stored_filename@, stored))
            &&& (found is Ok && stored is Ok ==> match found {
                Ok(Some(_)) => attachment_repo.updates(a, kept),
                _ => attachment_repo.saves(a, kept),
            })
            &&& r == answer_with(a, attach_answer(found, store_outcome(stored), kept))
        },
{
    let new_attachment = prepare(&input, source_size)?;
    let (mut stage, mut action, new_file) = start_attach(&new_attachment);
    let ghost mut step: nat = 0;
    let ghost mut found_g: Result<Option<Attachment>, SanchayaError> = arbitrary();
    let ghost mut stored_g: Result<PathBuf, SanchayaError> = arbitrary();
    let ghost mut kept_g: Result<(), SanchayaError> = arbitrary();
    let ghost mut removal_g: Result<(), SanchayaError> = arbitrary();
    #[verifier::loop_isolation(false)]
    loop
        invariant
            new_file == new_attachment.stored_filename,
            attach_ongoing(step, new_file, found_g, store_outcome(stored_g), kept_g, removal_g),
            (stage, action) == attach_state(step, new_file, found_g, store_outcome(stored_g), kept_g, removal_g),
            step >= 1 ==> attachment_repo.finds(input.document_id@, found_g),
            step >= 2 ==> storage.stores(input.document_id@, new_file@, stored_g),
            step >= 3 ==> match found_g {
                Ok(Some(_)) => attachment_repo.updates(new_attachment, kept_g),
                _ => attachment_repo.saves(new_attachment, kept_g),
            },
        decreases attach_steps_left(stage),
    {
        let ghost before = stage;
        let event = match action {
            AttachAction::FindExisting => {
                let found = attachment_repo.find_by_document_id(input.document_id.as_str());
                proof {
                    found_g = found;
                }
                AttachEvent::Found(found)
            },
            AttachAction::StoreNewFile(name) => {
                let stored = storage.store(
                    input.document_id.as_str(),
                    name.as_str(),
                    as_path(input.source_path.as_str()),
                );
                proof {
                    stored_g = stored;
                }
                AttachEvent::Completed(
                    match stored {
                        Ok(_) => Ok(()),
                        Err(e) => Err(e),
                    },
                )
            },
            AttachAction::SaveRecord => {
                let kept = attachment_repo.save(&new_attachment);
                proof {
                    kept_g = kept;
                }
                AttachEvent::Completed(kept)
            },
            AttachAction::UpdateRecord => {
                let kept = attachment_repo.update(&new_attachment);
                proof {
                    kept_g = kept;
                }
                AttachEvent::Completed(kept)
            },
            AttachAction::DeleteFile(name) => {
                let removal = storage.delete(input.document_id.as_str(), name.as_str());
                proof {
                    removal_g = removal;
                }
                AttachEvent::Completed(removal)
            },
            AttachAction::Finish(answer) => {
                proof {
                    lemma_finished_state_is_run(
                        step,
                        new_file,
                        found_g,
                        store_outcome(stored_g),
                        kept_g,
                        removal_g,
                    );
                    lemma_attach_run_answer(new_file, found_g, store_outcome(stored_g), kept_g, removal_g);
                }
                let r = match answer {
                    Ok(()) => Ok(new_attachment),
                    Err(e) => Err(e),
                };
                assert(r == answer_with(new_attachment, attach_answer(found_g, store_outcome(stored_g), kept_g)));
                assert(attachment_repo.finds(input.document_id@, found_g));
                assert(found_g is Ok ==> storage.stores(input.document_id@, new_attachment.stored_filename@, stored_g));
                return r;
            },
        };
        let (next_stage, next_action) = attach_step(stage, &new_file, event);
        stage = next_stage;
        action = next_action;
        proof {
            step = step + 1;
        }
    }
}

} // verus!
