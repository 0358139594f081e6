//! The Document entity, its category, and the repository that keeps
//! documents.

use crate::shared::errors::SanchayaError;
use crate::shared::ids::{is_uuid_text, random_uuid_text};
use crate::shared::text::{is_blank, lemma_trimmed_is_stable, same_text, trim_text, trimmed};
use crate::shared::time::{Timestamp, is_clock_reading};
use vstd::prelude::*;

verus! {

/// The kind of life record a document is.
#[derive(Debug, Clone, Copy, PartialEq, Eq, Structural)]
pub enum DocumentCategory {
    Identity,
    Education,
    Financial,
    Medical,
    Legal,
    Employment,
    Travel,
    Other,
}

/// The name under which a category is written and stored.
pub open spec fn category_name(c: DocumentCategory) -> Seq<char> {
    match c {
        DocumentCategory::Identity => "identity"@,
        DocumentCategory::Education => "education"@,
        DocumentCategory::Financial => "financial"@,
        DocumentCategory::Medical => "medical"@,
        DocumentCategory::Legal => "legal"@,
        DocumentCategory::Employment => "employment"@,
        DocumentCategory::Travel => "travel"@,
        DocumentCategory::Other => "other"@,
    }
}

/// The category that a name stands for; any name that is not one of the
/// seven specific ones reads as `Other`.
pub open spec fn category_named(s: Seq<char>) -> DocumentCategory {
    if s == "identity"@ {
        DocumentCategory::Identity
    } else if s == "education"@ {
        DocumentCategory::Education
    } else if s == "financial"@ {
        DocumentCategory::Financial
    } else if s == "medical"@ {
        DocumentCategory::Medical
    } else if s == "legal"@ {
        DocumentCategory::Legal
    } else if s == "employment"@ {
        DocumentCategory::Employment
    } else if s == "travel"@ {
        DocumentCategory::Travel
    } else {
        DocumentCategory::Other
    }
}

impl DocumentCategory {
    pub fn as_str(&self) -> (r: &'static str)
        ensures
            r@ == category_name(*self),
    {
        match self {
            DocumentCategory::Identity => "identity",
            DocumentCategory::Education => "education",
            DocumentCategory::Financial => "financial",
            DocumentCategory::Medical => "medical",
            DocumentCategory::Legal => "legal",
            DocumentCategory::Employment => "employment",
            DocumentCategory::Travel => "travel",
            DocumentCategory::Other => "other",
        }
    }

    /// Reads a category name; an unknown name gives `Other`.
    pub fn from_name(s: &str) -> (r: DocumentCategory)
        ensures
            r == category_named(s@),
    {
        if same_text(s, "identity") {
            DocumentCategory::Identity
        } else if same_text(s, "education") {
            DocumentCategory::Education
        } else if same_text(s, "financial") {
            DocumentCategory::Financial
        } else if same_text(s, "medical") {
            DocumentCategory::Medical
        } else if same_text(s, "legal") {
            DocumentCategory::Legal
        } else if same_text(s, "employment") {
            DocumentCategory::Employment
        } else if same_text(s, "travel") {
            DocumentCategory::Travel
        } else {
            DocumentCategory::Other
        }
    }
}

impl std::str::FromStr for DocumentCategory {
    type Err = ();

    /// Reads a category name; every text reads as a category, an unknown
    /// name as `Other`.
    fn from_str(s: &str) -> (parsed: Result<DocumentCategory, ()>)
        ensures
            parsed == Ok::<DocumentCategory, ()>(category_named(s@)),
    {
        Ok(DocumentCategory::from_name(s))
    }
}

/// Reading the name of a category gives the category back.
pub proof fn lemma_category_name_round_trip(c: DocumentCategory)
    ensures
        category_named(category_name(c)) == c,
{
    reveal_strlit("identity");
    reveal_strlit("education");
    reveal_strlit("financial");
    reveal_strlit("medical");
    reveal_strlit("legal");
    reveal_strlit("employment");
    reveal_strlit("travel");
    reveal_strlit("other");
    let names = seq![
        "identity"@,
        "education"@,
        "financial"@,
        "medical"@,
        "legal"@,
        "employment"@,
        "travel"@,
        "other"@,
    ];
    assert(forall|i: int| 0 <= i < 8 ==> #[trigger] names[i].len() > 0);
    assert(names[0][0] == 'i' && names[1][0] == 'e' && names[2][0] == 'f' && names[3][0] == 'm'
        && names[4][0] == 'l' && names[5][0] == 'e' && names[6][0] == 't' && names[7][0] == 'o');
    assert(names[1].len() != names[5].len());
}

/// Distinct categories have distinct names.
pub proof fn lemma_category_names_distinct(a: DocumentCategory, b: DocumentCategory)
    requires
        a != b,
    ensures
        category_name(a) != category_name(b),
{
    lemma_category_name_round_trip(a);
    lemma_category_name_round_trip(b);
}

/// The editable fields of a document, as one update hands them over.
pub struct UpdateDocumentFields {
    pub title: String,
    pub category: DocumentCategory,
    pub description: Option<String>,
    pub file_path: Option<String>,
    pub issuer: Option<String>,
    pub issue_date: Option<Timestamp>,
    pub expiry_date: Option<Timestamp>,
}

/// An important life record kept in the vault. Its title is trimmed and never
/// blank; its id and creation time never change.
#[derive(Debug, Clone)]
pub struct Document {
    pub id: String,
    pub title: String,
    pub category: DocumentCategory,
    pub description: Option<String>,
    pub file_path: Option<String>,
    pub issuer: Option<String>,
    pub issue_date: Option<Timestamp>,
    pub expiry_date: Option<Timestamp>,
    pub created_at: Timestamp,
    pub updated_at: Timestamp,
}

/// The title that a document is given, when it is made and when it is
/// updated, is trimmed and not blank.
pub proof fn lemma_given_title_is_clean(given: Seq<char>, title: Seq<char>)
    requires
        !is_blank(given),
        title == trimmed(given),
    ensures
        trimmed(title) == title,
        !is_blank(title),
{
    lemma_trimmed_is_stable(given);
}

/// The error that a blank title is answered with.
pub open spec fn is_empty_title_error(e: SanchayaError) -> bool {
    e matches SanchayaError::Validation(m) && m@ == "Document title cannot be empty"@
}

/// `d` holds the given fields, its title trimmed.
pub open spec fn holds_fields(
    d: Document,
    title: Seq<char>,
    category: DocumentCategory,
    description: Option<String>,
    file_path: Option<String>,
    issuer: Option<String>,
    issue_date: Option<Timestamp>,
    expiry_date: Option<Timestamp>,
) -> bool {
    &&& d.title@ == trimmed(title)
    &&& d.category == category
    &&& d.description == description
    &&& d.file_path == file_path
    &&& d.issuer == issuer
    &&& d.issue_date == issue_date
    &&& d.expiry_date == expiry_date
}

/// `d` is what an update with `fields` at `now` makes of `old`.
pub open spec fn updated_document(old: Document, d: Document, fields: UpdateDocumentFields, now: Timestamp) -> bool {
    &&& holds_fields(
        d,
        fields.title@,
        fields.category,
        fields.description,
        fields.file_path,
        fields.issuer,
        fields.issue_date,
        fields.expiry_date,
    )
    &&& d.id == old.id
    &&& d.created_at == old.created_at
    &&& d.updated_at == now
}

fn empty_title_error() -> (e: SanchayaError)
    ensures
        is_empty_title_error(e),
{
    SanchayaError::Validation(String::from_str("Document title cannot be empty"))
}

impl Document {
    /// A new document with a fresh random id, created and last updated now.
    /// A blank title is refused; the title is kept trimmed.
    pub fn new(
        title: String,
        category: DocumentCategory,
        description: Option<String>,
        file_path: Option<String>,
        issuer: Option<String>,
        issue_date: Option<Timestamp>,
        expiry_date: Option<Timestamp>,
    ) -> (r: Result<Document, SanchayaError>)
        ensures
            r is Err <==> is_blank(title@),
            r matches Err(e) ==> is_empty_title_error(e),
            r matches Ok(d) ==> {
                &&& holds_fields(d, title@, category, description, file_path, issuer, issue_date, expiry_date)
                &&& is_uuid_text(d.id@)
                &&& d.created_at == d.updated_at
                &&& is_clock_reading(d.created_at)
            },
    {
        let trimmed_title = trim_text(title.as_str());
        if trimmed_title.as_str().unicode_len() == 0 {
            return Err(empty_title_error());
        }
        let id = random_uuid_text();
        let now = Timestamp::now();
        Document::assemble(id, now, title, category, description, file_path, issuer, issue_date, expiry_date)
    }

    /// The document that `new` makes when the fresh id is `id` and the clock
    /// reads `now`.
    pub fn assemble(
        id: String,
        now: Timestamp,
        title: String,
        category: DocumentCategory,
        description: Option<String>,
        file_path: Option<String>,
        issuer: Option<String>,
        issue_date: Option<Timestamp>,
        expiry_date: Option<Timestamp>,
    ) -> (r: Result<Document, SanchayaError>)
        ensures
            r is Err <==> is_blank(title@),
            r matches Err(e) ==> is_empty_title_error(e),
            r matches Ok(d) ==> {
                &&& holds_fields(d, title@, category, description, file_path, issuer, issue_date, expiry_date)
                &&& d.id == id
                &&& d.created_at == now
                &&& d.updated_at == now
            },
    {
        let trimmed_title = trim_text(title.as_str());
        if trimmed_title.as_str().unicode_len() == 0 {
            return Err(empty_title_error());
        }
        Ok(Document {
            id,
            title: trimmed_title,
            category,
            description,
            file_path,
            issuer,
            issue_date,
            expiry_date,
            created_at: now,
            updated_at: now,
        })
    }

    /// Applies an update to the editable fields and stamps `updated_at` with
    /// the current time. A blank title is refused and leaves the document as it
    /// was; `id` and `created_at` never change.
    pub fn update(&mut self, fields: UpdateDocumentFields) -> (r: Result<(), SanchayaError>)
        ensures
            r is Err <==> is_blank(fields.title@),
            r matches Err(e) ==> is_empty_title_error(e) && *final(self) == *old(self),
            r is Ok ==> exists|now: Timestamp|
                is_clock_reading(now) && updated_document(*old(self), *final(self), fields, now),
    {
        let trimmed_title = trim_text(fields.title.as_str());
        if trimmed_title.as_str().unicode_len() == 0 {
            return Err(empty_title_error());
        }
        let now = Timestamp::now();
        self.update_at(fields, now)
    }

    /// The update that `update` makes when the clock reads `now`.
    pub fn update_at(&mut self, fields: UpdateDocumentFields, now: Timestamp) -> (r: Result<(), SanchayaError>)
        ensures
            r is Err <==> is_blank(fields.title@),
            r matches Err(e) ==> is_empty_title_error(e) && *final(self) == *old(self),
            r is Ok ==> updated_document(*old(self), *final(self), fields, now),
    {
        let trimmed_title = trim_text(fields.title.as_str());
        if trimmed_title.as_str().unicode_len() == 0 {
            return Err(empty_title_error());
        }
        self.title = trimmed_title;
        self.category = fields.category;
        self.description = fields.description;
        self.file_path = fields.file_path;
        self.issuer = fields.issuer;
        self.issue_date = fields.issue_date;
        self.expiry_date = fields.expiry_date;
        self.updated_at = now;
        Ok(())
    }
}

/// `e` reports that no document has the id `id`.
pub open spec fn is_document_not_found(e: SanchayaError, id: Seq<char>) -> bool {
    e matches SanchayaError::NotFound(m) && m@ == id
}

/// The document that a lookup by `id` found, `NotFound(id)` where it found
/// none, or the lookup's own error.
pub fn require_document(found: Result<Option<Document>, SanchayaError>, id: &str) -> (r: Result<
    Document,
    SanchayaError,
>)
    ensures
        match found {
            Ok(Some(d)) => r == Ok::<Document, SanchayaError>(d),
            Ok(None) => r matches Err(e) && is_document_not_found(e, id@),
            Err(e) => r == Err::<Document, SanchayaError>(e),
        },
{
    match found {
        Ok(Some(d)) => Ok(d),
        Ok(None) => Err(SanchayaError::NotFound(String::from_str(id))),
        Err(e) => Err(e),
    }
}

/// Where documents are kept. The vault's own implementation keeps them in
/// SQLite; each method reports the store's failures as errors.
///
/// Each method is tied to a relation between its arguments and its answer,
/// which an implementation may narrow; by default a relation admits every
/// answer, so nothing is claimed of an implementation that leaves it as it
/// is. A use case that states its answer through these relations can only
/// pass on what the repository answered, for every repository.
pub trait DocumentRepository {
    /// Whether `r` is an answer that `save` gives for `document`.
    open spec fn saves(&self, document: Document, r: Result<(), SanchayaError>) -> bool {
        true
    }

    fn save(&self, document: &Document) -> (r: Result<(), SanchayaError>)
        ensures
            self.saves(*document, r),
    ;

    /// Whether `r` is an answer that `find_by_id` gives for `id`.
    open spec fn finds(&self, id: Seq<char>, r: Result<Option<Document>, SanchayaError>) -> bool {
        true
    }

    fn find_by_id(&self, id: &str) -> (r: Result<Option<Document>, SanchayaError>)
        ensures
            self.finds(id@, r),
    ;

    /// Whether `r` is an answer that `find_all` gives on this repository.
    open spec fn lists(&self, r: Result<Vec<Document>, SanchayaError>) -> bool {
        true
    }

    fn find_all(&self) -> (r: Result<Vec<Document>, SanchayaError>)
        ensures
            self.lists(r),
    ;

    /// Whether `r` is an answer that `delete` gives for `id`.
    open spec fn deletes(&self, id: Seq<char>, r: Result<(), SanchayaError>) -> bool {
        true
    }

    fn delete(&self, id: &str) -> (r: Result<(), SanchayaError>)
        ensures
            self.deletes(id@, r),
    ;

    /// Whether `r` is an answer that `update` gives for `document`.
    open spec fn updates(&self, document: Document, r: Result<(), SanchayaError>) -> bool {
        true
    }

    fn update(&self, document: &Document) -> (r: Result<(), SanchayaError>)
        ensures
            self.updates(*document, r),
    ;
}

} // verus!
