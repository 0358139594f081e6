//! Use case: the attachment record of a document, if it has one.

use crate::domain::attachment::{Attachment, AttachmentRepository};
use crate::shared::errors::SanchayaError;
use vstd::prelude::*;

verus! {

/// The attachment record of the document, as the repository gives it.
pub fn execute(document_id: &str, attachment_repo: &dyn AttachmentRepository) -> (r: Result<
    Option<Attachment>,
    SanchayaError,
>)
    ensures
        attachment_repo.finds(document_id@, r),
{
    attachment_repo.find_by_document_id(document_id)
}

} // verus!
