pub mod attachment;
pub mod document;
