//! Where the files of attachments are kept.

use crate::shared::errors::SanchayaError;
use std::path::{Path, PathBuf};
use vstd::prelude::*;

verus! {

#[verifier::external_type_specification]
#[verifier::external_body]
pub struct ExPathBuf(PathBuf);

#[verifier::external_type_specification]
#[verifier::external_body]
pub struct ExPath(Path);

/// What `std::path::Path::extension` gives for the path written as `path`,
/// as text: the part of the last component after its last dot, or `None`.
pub uninterp spec fn path_extension(path: Seq<char>) -> Option<Seq<char>>;

/// `std::path::Path::extension` of the path written as `path`, as text. The
/// extension of a path given as UTF-8 is UTF-8 too, so the conversion back to
/// `&str` always succeeds. It depends on the text alone; its result is named
/// by `path_extension`.
#[verifier::external_body]
pub(crate) fn extension_of(path: &str) -> (r: Option<&str>)
    ensures
        match r {
            Some(e) => path_extension(path@) == Some(e@),
            None => path_extension(path@) is None,
        },
{
    Path::new(path).extension().and_then(|e| e.to_str())
}

/// `std::path::Path::new`: the text `path` read as a path, without touching
/// the disk. Verus sees the path as opaque.
#[verifier::external_body]
pub(crate) fn as_path(path: &str) -> &Path {
    Path::new(path)
}

/// The store of attachment files, one directory per document. The vault's
/// own implementation keeps them on the local disk.
///
/// Each method is tied to a relation between its arguments and its answer,
/// which an implementation may narrow; by default a relation admits every
/// answer, so nothing is claimed of an implementation that leaves it as it
/// is.
pub trait AttachmentStorage {
    /// Whether `r` is an answer that `store` gives for the document and the
    /// stored name.
    open spec fn stores(&self, document_id: Seq<char>, stored_filename: Seq<char>, r: Result<PathBuf, SanchayaError>) -> bool {
        true
    }

    /// Copies `source_path` into the vault under `document_id/stored_filename`
    /// and gives the path where it now lies.
    fn store(&self, document_id: &str, stored_filename: &str, source_path: &Path) -> (r: Result<PathBuf, SanchayaError>)
        ensures
            self.stores(document_id@, stored_filename@, r),
    ;

    /// Whether `r` is an answer that `delete` gives for the document and the
    /// stored name.
    open spec fn deletes(&self, document_id: Seq<char>, stored_filename: Seq<char>, r: Result<(), SanchayaError>) -> bool {
        true
    }

    /// Deletes the stored file of a document.
    fn delete(&self, document_id: &str, stored_filename: &str) -> (r: Result<(), SanchayaError>)
        ensures
            self.deletes(document_id@, stored_filename@, r),
    ;

    /// Whether `p` is the path that `resolve_path` gives for the document and
    /// the stored name.
    open spec fn resolves(&self, document_id: Seq<char>, stored_filename: Seq<char>, p: PathBuf) -> bool {
        true
    }

    /// The path of a stored file, without touching the disk.
    fn resolve_path(&self, document_id: &str, stored_filename: &str) -> (p: PathBuf)
        ensures
            self.resolves(document_id@, stored_filename@, p),
    ;
}

} // verus!
