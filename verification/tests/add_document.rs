use sanchaya::application::add_document::{execute, AddDocumentInput};
use sanchaya::domain::document::{Document, DocumentCategory, DocumentRepository};
use sanchaya::shared::errors::SanchayaError;
use sanchaya::shared::time::Timestamp;
use std::cell::RefCell;

struct FakeDocumentRepository {
    documents: RefCell<Vec<Document>>,
    fail_on_save: bool,
}

impl FakeDocumentRepository {
    fn new() -> Self {
        Self {
            documents: RefCell::new(Vec::new()),
            fail_on_save: false,
        }
    }

    fn that_fails_on_save() -> Self {
        Self {
            documents: RefCell::new(Vec::new()),
            fail_on_save: true,
        }
    }

    fn count(&self) -> usize {
        self.documents.borrow().len()
    }
}

impl DocumentRepository for FakeDocumentRepository {
    fn save(&self, document: &Document) -> Result<(), SanchayaError> {
        if self.fail_on_save {
            return Err(SanchayaError::Database(rusqlite::Error::InvalidQuery));
        }
        self.documents.borrow_mut().push(document.clone());
        Ok(())
    }

    fn find_by_id(&self, id: &str) -> Result<Option<Document>, SanchayaError> {
        let found = self.documents.borrow().iter().find(|d| d.id == id).cloned();
        Ok(found)
    }

    fn find_all(&self) -> Result<Vec<Document>, SanchayaError> {
        Ok(self.documents.borrow().clone())
    }

    fn delete(&self, id: &str) -> Result<(), SanchayaError> {
        let mut docs = self.documents.borrow_mut();
        let initial_len = docs.len();
        docs.retain(|d| d.id != id);
        if docs.len() == initial_len {
            return Err(SanchayaError::NotFound(id.to_string()));
        }
        Ok(())
    }

    fn update(&self, document: &Document) -> Result<(), SanchayaError> {
        let mut docs = self.documents.borrow_mut();
        if let Some(existing) = docs.iter_mut().find(|d| d.id == document.id) {
            *existing = document.clone();
            Ok(())
        } else {
            Err(SanchayaError::NotFound(document.id.clone()))
        }
    }
}

fn minimal_input(title: &str) -> AddDocumentInput {
    AddDocumentInput {
        title: title.to_string(),
        category: "identity".to_string(),
        description: None,
        file_path: None,
        issuer: None,
        issue_date: None,
        expiry_date: None,
    }
}

#[test]
fn add_document_saves_to_repository() {
    let repo = FakeDocumentRepository::new();
    let input = minimal_input("Passport");

    let result = execute(input, &repo);

    assert!(result.is_ok());
    assert_eq!(repo.count(), 1);
}

#[test]
fn add_document_returns_saved_document() {
    let repo = FakeDocumentRepository::new();
    let input = minimal_input("Passport");

    let doc = execute(input, &repo).unwrap();

    assert_eq!(doc.title, "Passport");
}

#[test]
fn add_document_empty_title_returns_validation_error() {
    let repo = FakeDocumentRepository::new();
    let input = minimal_input("");

    let result = execute(input, &repo);

    assert!(result.is_err());
    assert_eq!(repo.count(), 0);
}

#[test]
fn add_document_validation_error_does_not_save() {
    let repo = FakeDocumentRepository::new();
    let input = minimal_input("   ");

    let result = execute(input, &repo);

    assert!(result.is_err());
    assert_eq!(repo.count(), 0);
}

#[test]
fn add_document_parses_valid_expiry_date() {
    let repo = FakeDocumentRepository::new();
    let input = AddDocumentInput {
        title: "Passport".to_string(),
        category: "identity".to_string(),
        description: None,
        file_path: None,
        issuer: None,
        issue_date: None,
        expiry_date: Some("2030-01-01T00:00:00Z".to_string()),
    };

    let doc = execute(input, &repo).unwrap();

    assert!(doc.expiry_date.is_some());
}

#[test]
fn add_document_invalid_expiry_date_becomes_none() {
    let repo = FakeDocumentRepository::new();
    let input = AddDocumentInput {
        title: "Passport".to_string(),
        category: "identity".to_string(),
        description: None,
        file_path: None,
        issuer: None,
        issue_date: None,
        expiry_date: Some("not-a-date".to_string()),
    };

    let doc = execute(input, &repo).unwrap();

    assert!(doc.expiry_date.is_none());
}

#[test]
fn add_document_empty_expiry_date_string_becomes_none() {
    let repo = FakeDocumentRepository::new();
    let input = AddDocumentInput {
        title: "Passport".to_string(),
        category: "identity".to_string(),
        description: None,
        file_path: None,
        issuer: None,
        issue_date: None,
        expiry_date: Some("".to_string()),
    };

    let doc = execute(input, &repo).unwrap();

    assert!(doc.expiry_date.is_none());
}

#[test]
fn add_document_unknown_category_becomes_other() {
    let repo = FakeDocumentRepository::new();
    let input = AddDocumentInput {
        title: "Passport".to_string(),
        category: "unknown_category".to_string(),
        description: None,
        file_path: None,
        issuer: None,
        issue_date: None,
        expiry_date: None,
    };

    let doc = execute(input, &repo).unwrap();

    assert_eq!(doc.category, DocumentCategory::Other);
}

#[test]
fn add_document_propagates_repository_error() {
    let repo = FakeDocumentRepository::that_fails_on_save();
    let input = minimal_input("Passport");

    let result = execute(input, &repo);

    assert!(result.is_err());
}

// -- further cases -----------------------------------------------------------

#[test]
fn add_document_reads_dates_in_utc() {
    let repo = FakeDocumentRepository::new();
    let input = AddDocumentInput {
        title: " Visa ".to_string(),
        category: "travel".to_string(),
        description: Some("tourist".to_string()),
        file_path: None,
        issuer: Some("Consulate".to_string()),
        issue_date: Some("2030-01-01T05:30:00+05:30".to_string()),
        expiry_date: Some("2030-01-01T00:00:00.250Z".to_string()),
    };

    let doc = execute(input, &repo).unwrap();

    assert_eq!(doc.title, "Visa");
    assert_eq!(doc.category, DocumentCategory::Travel);
    assert_eq!(doc.issuer, Some("Consulate".to_string()));
    assert_eq!(doc.issue_date, Some(Timestamp { seconds: 1_893_456_000, nanoseconds: 0 }));
    assert_eq!(
        doc.expiry_date,
        Some(Timestamp { seconds: 1_893_456_000, nanoseconds: 250_000_000 })
    );
    assert_eq!(doc.created_at, doc.updated_at);
    let stored = repo.find_by_id(&doc.id).unwrap().unwrap();
    assert_eq!(stored.title, "Visa");
}

#[test]
fn add_document_repository_error_is_passed_through() {
    let repo = FakeDocumentRepository::that_fails_on_save();
    let result = execute(minimal_input("Passport"), &repo);
    assert!(matches!(result, Err(SanchayaError::Database(rusqlite::Error::InvalidQuery))));
}
