pub mod attachment_storage;
pub mod records;
