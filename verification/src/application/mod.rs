pub mod add_document;
pub mod attach_file;
pub mod delete_document;
pub mod get_attachment;
pub mod list_documents;
pub mod open_attachment;
pub mod remove_attachment;
pub mod update_document;
