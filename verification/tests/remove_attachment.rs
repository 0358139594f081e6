use sanchaya::application::open_attachment::locate;
use sanchaya::application::remove_attachment::{
    execute, remove_step, start_removal, RemoveAction, RemoveEvent, RemoveStage,
};
use sanchaya::domain::attachment::{Attachment, AttachmentRepository};
use sanchaya::infrastructure::attachment_storage::AttachmentStorage;
use sanchaya::shared::errors::SanchayaError;
use std::cell::RefCell;
use std::path::{Path, PathBuf};

struct FakeStorage {
    deleted: RefCell<Vec<String>>,
    fail_on_delete: bool,
}

impl FakeStorage {
    fn new() -> Self {
        Self {
            deleted: RefCell::new(Vec::new()),
            fail_on_delete: false,
        }
    }
    fn that_fails() -> Self {
        Self {
            deleted: RefCell::new(Vec::new()),
            fail_on_delete: true,
        }
    }
}

impl AttachmentStorage for FakeStorage {
    fn store(&self, _: &str, _: &str, _: &Path) -> Result<PathBuf, SanchayaError> {
        Ok(PathBuf::from("/fake"))
    }
    fn delete(&self, _doc: &str, filename: &str) -> Result<(), SanchayaError> {
        if self.fail_on_delete {
            return Err(SanchayaError::Storage("Fake delete failure".to_string()));
        }
        self.deleted.borrow_mut().push(filename.to_string());
        Ok(())
    }
    fn resolve_path(&self, _: &str, _: &str) -> PathBuf {
        PathBuf::from("/fake")
    }
}

struct FakeRepo {
    records: RefCell<Vec<Attachment>>,
}

impl FakeRepo {
    fn with(a: Attachment) -> Self {
        Self {
            records: RefCell::new(vec![a]),
        }
    }
    fn empty() -> Self {
        Self {
            records: RefCell::new(Vec::new()),
        }
    }
}

impl AttachmentRepository for FakeRepo {
    fn save(&self, a: &Attachment) -> Result<(), SanchayaError> {
        self.records.borrow_mut().push(a.clone());
        Ok(())
    }
    fn find_by_document_id(&self, doc_id: &str) -> Result<Option<Attachment>, SanchayaError> {
        Ok(self
            .records
            .borrow()
            .iter()
            .find(|a| a.document_id == doc_id)
            .cloned())
    }
    fn delete_by_document_id(&self, doc_id: &str) -> Result<(), SanchayaError> {
        self.records.borrow_mut().retain(|a| a.document_id != doc_id);
        Ok(())
    }
    fn update(&self, _: &Attachment) -> Result<(), SanchayaError> {
        Ok(())
    }
}

fn make_attachment(doc_id: &str) -> Attachment {
    Attachment::new(
        doc_id.to_string(),
        "file.pdf".to_string(),
        "application/pdf".to_string(),
        1024,
    )
    .unwrap()
}

#[test]
fn remove_succeeds_when_attachment_exists() {
    let a = make_attachment("doc-1");
    let repo = FakeRepo::with(a);
    let storage = FakeStorage::new();
    assert!(execute("doc-1", &repo, &storage).is_ok());
}

#[test]
fn remove_deletes_physical_file() {
    let a = make_attachment("doc-1");
    let repo = FakeRepo::with(a);
    let storage = FakeStorage::new();
    execute("doc-1", &repo, &storage).unwrap();
    assert_eq!(storage.deleted.borrow().len(), 1);
}

#[test]
fn remove_deletes_metadata_record() {
    let a = make_attachment("doc-1");
    let repo = FakeRepo::with(a);
    let storage = FakeStorage::new();
    execute("doc-1", &repo, &storage).unwrap();
    let found = repo.find_by_document_id("doc-1").unwrap();
    assert!(found.is_none());
}

#[test]
fn remove_returns_not_found_when_no_attachment() {
    let repo = FakeRepo::empty();
    let storage = FakeStorage::new();
    let result = execute("doc-1", &repo, &storage);
    assert!(result.is_err());
    match result {
        Err(SanchayaError::NotFound(_)) => {}
        _ => panic!("Expected NotFound"),
    }
}

#[test]
fn remove_preserves_record_when_storage_delete_fails() {
    let a = make_attachment("doc-1");
    let repo = FakeRepo::with(a);
    let storage = FakeStorage::that_fails();
    let result = execute("doc-1", &repo, &storage);
    assert!(result.is_err());
    let found = repo.find_by_document_id("doc-1").unwrap();
    assert!(found.is_some());
}

// -- further cases -----------------------------------------------------------

#[test]
fn remove_deletes_the_file_the_record_names() {
    let a = make_attachment("doc-1");
    let stored = a.stored_filename.clone();
    let repo = FakeRepo::with(a);
    let storage = FakeStorage::new();
    execute("doc-1", &repo, &storage).unwrap();
    assert_eq!(storage.deleted.borrow().clone(), vec![stored]);
}

#[test]
fn remove_missing_record_message_names_document() {
    let repo = FakeRepo::empty();
    let storage = FakeStorage::new();
    let result = execute("doc-42", &repo, &storage);
    assert!(matches!(result, Err(SanchayaError::NotFound(m)) if m == "No attachment found for document: doc-42"));
    assert!(storage.deleted.borrow().is_empty());
}

#[test]
fn remove_steps_follow_file_then_record() {
    let stage = start_removal("doc-1");
    let (stage, action) = remove_step(stage, RemoveEvent::Found(Ok(Some(make_attachment("doc-1")))));
    assert!(matches!(stage, RemoveStage::DeletingFile));
    assert!(matches!(action, RemoveAction::DeleteFile(ref n) if n.ends_with(".pdf")));
    let (stage, action) = remove_step(stage, RemoveEvent::Completed(Ok(())));
    assert!(matches!(stage, RemoveStage::DeletingRecord));
    assert!(matches!(action, RemoveAction::DeleteRecord));
    let (stage, action) = remove_step(
        stage,
        RemoveEvent::Completed(Err(SanchayaError::Storage("locked".to_string()))),
    );
    assert!(matches!(stage, RemoveStage::Finished));
    assert!(matches!(action, RemoveAction::Finish(Err(SanchayaError::Storage(m))) if m == "locked"));
}

#[test]
fn remove_step_stops_when_file_delete_fails() {
    let (_, action) = remove_step(
        RemoveStage::DeletingFile,
        RemoveEvent::Completed(Err(SanchayaError::Storage("busy".to_string()))),
    );
    assert!(matches!(action, RemoveAction::Finish(Err(SanchayaError::Storage(m))) if m == "busy"));
    let (_, action) = remove_step(start_removal("d"), RemoveEvent::Found(Ok(None)));
    assert!(matches!(action, RemoveAction::Finish(Err(SanchayaError::NotFound(m))) if m == "No attachment found for document: d"));
}

#[test]
fn locate_answers_missing_record_and_resolves_stored_name() {
    let storage = FakeStorage::new();
    let missing = locate("doc-9", &FakeRepo::empty(), &storage);
    assert!(matches!(missing, Err(SanchayaError::NotFound(m)) if m == "No attachment found for document: doc-9"));
    let found = locate("doc-1", &FakeRepo::with(make_attachment("doc-1")), &storage).unwrap();
    assert_eq!(found, PathBuf::from("/fake"));
}
