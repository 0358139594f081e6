//! Use case: delete a document from the vault.

use crate::domain::document::{Document, DocumentRepository, is_document_not_found, require_document};
use crate::shared::errors::SanchayaError;
use vstd::prelude::*;

verus! {

/// Deletes the document `id`. A document that the repository does not find is
/// answered with `NotFound(id)` (by `require_document`) and nothing is
/// deleted; otherwise the answer is the repository's.
pub fn execute(id: &str, repository: &dyn DocumentRepository) -> (r: Result<(), SanchayaError>)
    ensures
        exists|found: Result<Option<Document>, SanchayaError>| {
            &&& repository.finds(id@, found)
            &&& match found {
                Ok(Some(_)) => repository.deletes(id@, r),
                Ok(None) => r matches Err(e) && is_document_not_found(e, id@),
                Err(e) => r == Err::<(), SanchayaError>(e),
            }
        },
{
    let found = repository.find_by_id(id);
    match require_document(found, id) {
        Ok(_) => repository.delete(id),
        Err(e) => Err(e),
    }
}

} // verus!
