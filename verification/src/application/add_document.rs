//! Use case: add a new document to the vault.

use crate::domain::document::{
    Document, DocumentCategory, DocumentRepository, category_named, holds_fields,
    is_empty_title_error,
};
use crate::shared::errors::SanchayaError;
use crate::shared::ids::is_uuid_text;
use crate::shared::text::is_blank;
use crate::shared::time::{is_clock_reading, optional_date, parse_optional_date};
use vstd::prelude::*;

verus! {

/// The fields of a new document as the user entered them.
pub struct AddDocumentInput {
    pub title: String,
    pub category: String,
    pub description: Option<String>,
    pub file_path: Option<String>,
    pub issuer: Option<String>,
    pub issue_date: Option<String>,
    pub expiry_date: Option<String>,
}

/// The text of an optional text field.
pub open spec fn text_of(t: Option<String>) -> Option<Seq<char>> {
    match t {
        Some(s) => Some(s@),
        None => None,
    }
}

/// `d` is a document made for `input`: its fields those that `input`
/// describes, a fresh random id, created and last updated at a clock reading.
pub open spec fn made_for(input: AddDocumentInput, d: Document) -> bool {
    &&& holds_fields(
        d,
        input.title@,
        category_named(input.category@),
        input.description,
        input.file_path,
        input.issuer,
        optional_date(text_of(input.issue_date)),
        optional_date(text_of(input.expiry_date)),
    )
    &&& is_uuid_text(d.id@)
    &&& d.created_at == d.updated_at
    &&& is_clock_reading(d.created_at)
}

/// Builds the document that `input` describes and hands it to the repository.
/// The category is read by name (an unknown name is `Other`); a date that is
/// missing, empty or not RFC 3339 is left out. A blank title is refused before
/// the repository is asked. Otherwise the document is saved, and the answer is
/// that very document where the repository saved it, or the repository's
/// error.
pub fn execute(input: AddDocumentInput, repository: &dyn DocumentRepository) -> (r: Result<
    Document,
    SanchayaError,
>)
    ensures
        is_blank(input.title@) ==> (r matches Err(e) && is_empty_title_error(e)),
        r matches Ok(d) ==> made_for(input, d) && repository.saves(d, Ok(())),
        !is_blank(input.title@) ==> exists|d: Document| {
            &&& made_for(input, d)
            &&& match r {
                Ok(returned) => returned == d && repository.saves(d, Ok(())),
                Err(e) => repository.saves(d, Err(e)),
            }
        },
{
    let category = DocumentCategory::from_name(input.category.as_str());
    let issue_date = parse_optional_date(&input.issue_date);
    let expiry_date = parse_optional_date(&input.expiry_date);
    let document = Document::new(
        input.title,
        category,
        input.description,
        input.file_path,
        input.issuer,
        issue_date,
        expiry_date,
    )?;
    let saved = repository.save(&document);
    match saved {
        Ok(unit) => {
            assert(unit == ());
            assert(made_for(input, document));
            Ok(document)
        },
        Err(e) => {
            assert(made_for(input, document));
            Err(e)
        },
    }
}

} // verus!
