//! A document vault: documents, their single file attachment, and the use
//! cases that manage them, with the rules that each step must keep.

pub mod domain;
pub mod infrastructure;
pub mod shared;
pub mod application;
pub mod presentation;
