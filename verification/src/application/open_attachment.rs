//! Use case: find where the file of a document's attachment lies, so that it
//! can be opened with the system's default application.

use crate::domain::attachment::{Attachment, AttachmentRepository, is_no_attachment_error, require_attachment};
use crate::infrastructure::attachment_storage::AttachmentStorage;
use crate::shared::errors::SanchayaError;
use std::path::PathBuf;
use vstd::prelude::*;

verus! {

/// The path of the stored file of the document's attachment, as the storage
/// resolves it from the record's stored name; a document without a record is
/// answered with the no-attachment error (by `require_attachment`), and the
/// lookup's own error is passed on.
pub fn locate(
    document_id: &str,
    attachment_repo: &dyn AttachmentRepository,
    storage: &dyn AttachmentStorage,
) -> (r: Result<PathBuf, SanchayaError>)
    ensures
        exists|found: Result<Option<Attachment>, SanchayaError>| {
            &&& attachment_repo.finds(document_id@, found)
            &&& match found {
                Ok(Some(a)) => r matches Ok(p) && storage.resolves(document_id@, a.stored_filename@, p),
                Ok(None) => r matches Err(e) && is_no_attachment_error(e, document_id@),
                Err(e) => r == Err::<PathBuf, SanchayaError>(e),
            }
        },
{
    let attachment = require_attachment(attachment_repo.find_by_document_id(document_id), document_id)?;
    Ok(storage.resolve_path(document_id, attachment.stored_filename.as_str()))
}

/// The error for a record whose file is not in the vault, `path` being where
/// the file should lie.
pub fn missing_file_error(path: &str) -> (e: SanchayaError)
    ensures
        e matches SanchayaError::Storage(m) && m@ == "Attachment file missing from vault: "@ + path@,
{
    let mut m = String::from_str("Attachment file missing from vault: ");
    m.append(path);
    SanchayaError::Storage(m)
}

} // verus!
