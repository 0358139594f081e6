//! Use case: update a document in the vault.

use crate::application::add_document::text_of;
use crate::domain::document::{
    Document, DocumentCategory, DocumentRepository, UpdateDocumentFields, category_named,
    is_document_not_found, is_empty_title_error, require_document, updated_document,
};
use crate::shared::errors::SanchayaError;
use crate::shared::text::is_blank;
use crate::shared::time::{Timestamp, is_clock_reading, optional_date, parse_optional_date};
use vstd::prelude::*;

verus! {

/// The new fields of a document as the user entered them.
pub struct UpdateDocumentInput {
    pub id: String,
    pub title: String,
    pub category: String,
    pub description: Option<String>,
    pub file_path: Option<String>,
    pub issuer: Option<String>,
    pub issue_date: Option<String>,
    pub expiry_date: Option<String>,
}

/// The fields that an update input stands for: the category read by name,
/// each date read as when adding a document.
pub open spec fn fields_of(input: UpdateDocumentInput) -> UpdateDocumentFields {
    UpdateDocumentFields {
        title: input.title,
        category: category_named(input.category@),
        description: input.description,
        file_path: input.file_path,
        issuer: input.issuer,
        issue_date: optional_date(text_of(input.issue_date)),
        expiry_date: optional_date(text_of(input.expiry_date)),
    }
}

/// What an update makes of the lookup of `input.id`: the lookup's own error,
/// `NotFound(input.id)` where nothing was found, the refusal of a blank title,
/// or the found document with the new fields (its id and creation time kept,
/// its update time the current time).
pub fn apply(found: Result<Option<Document>, SanchayaError>, input: UpdateDocumentInput) -> (r: Result<
    Document,
    SanchayaError,
>)
    ensures
        match found {
            Err(e) => r == Err::<Document, SanchayaError>(e),
            Ok(None) => r matches Err(e) && is_document_not_found(e, input.id@),
            Ok(Some(old)) => {
                &&& r is Err <==> is_blank(input.title@)
                &&& r matches Err(e) ==> is_empty_title_error(e)
                &&& r matches Ok(d) ==> exists|now: Timestamp|
                    is_clock_reading(now) && updated_document(old, d, fields_of(input), now)
            },
        },
{
    let mut document = require_document(found, input.id.as_str())?;
    let category = DocumentCategory::from_name(input.category.as_str());
    let issue_date = parse_optional_date(&input.issue_date);
    let expiry_date = parse_optional_date(&input.expiry_date);
    document.update(
        UpdateDocumentFields {
            title: input.title,
            category,
            description: input.description,
            file_path: input.file_path,
            issuer: input.issuer,
            issue_date,
            expiry_date,
        },
    )?;
    Ok(document)
}

/// Finds the document `input.id`, applies the new fields to it (`apply`), and
/// hands it to the repository. On success the answer is the updated document.
pub fn execute(input: UpdateDocumentInput, repository: &dyn DocumentRepository) -> (r: Result<
    Document,
    SanchayaError,
>)
    ensures
        is_blank(input.title@) ==> r is Err,
        r matches Ok(d) ==> exists|old: Document, now: Timestamp|
            is_clock_reading(now) && updated_document(old, d, fields_of(input), now),
        exists|found: Result<Option<Document>, SanchayaError>| {
            &&& repository.finds(input.id@, found)
            &&& match found {
                Err(e) => r == Err::<Document, SanchayaError>(e),
                Ok(None) => r matches Err(e) && is_document_not_found(e, input.id@),
                Ok(Some(old)) => if is_blank(input.title@) {
                    r matches Err(e) && is_empty_title_error(e)
                } else {
                    exists|d: Document, now: Timestamp| {
                        &&& is_clock_reading(now)
                        &&& updated_document(old, d, fields_of(input), now)
                        &&& match r {
                            Ok(returned) => returned == d && repository.updates(d, Ok(())),
                            Err(e) => repository.updates(d, Err(e)),
                        }
                    }
                },
            }
        },
{
    let found = repository.find_by_id(input.id.as_str());
    let ghost asked = input;
    let ghost answered = found;
    let applied = apply(found, input);
    match applied {
        Ok(document) => {
            let updated = repository.update(&document);
            proof {
                let old = answered->Ok_0->Some_0;
                let now = choose|now: Timestamp|
                    is_clock_reading(now) && updated_document(old, document, fields_of(asked), now);
                assert(is_clock_reading(now) && updated_document(old, document, fields_of(asked), now));
            }
            match updated {
                Ok(unit) => {
                    assert(unit == ());
                    Ok(document)
                },
                Err(e) => Err(e),
            }
        },
        Err(e) => Err(e),
    }
}

} // verus!
