//! Use case: every document in the vault.

use crate::domain::document::{Document, DocumentRepository};
use crate::shared::errors::SanchayaError;
use vstd::prelude::*;

verus! {

/// Every document that the repository holds, as it gives them.
pub fn execute(repository: &dyn DocumentRepository) -> (r: Result<Vec<Document>, SanchayaError>)
    ensures
        repository.lists(r),
{
    repository.find_all()
}

} // verus!
