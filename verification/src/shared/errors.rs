//! The one error type that every layer of the vault answers with.

use vstd::prelude::*;

verus! {

#[verifier::external_type_specification]
#[verifier::external_body]
pub struct ExSqliteError(rusqlite::Error);

#[verifier::external_type_specification]
#[verifier::external_body]
pub struct ExIoError(std::io::Error);

/// What went wrong: in the database, with a missing document or record, with
/// the user's input, on disk, in the file store, or with a file type that the
/// vault does not take.
#[derive(Debug)]
pub enum SanchayaError {
    Database(rusqlite::Error),
    NotFound(String),
    Validation(String),
    Io(std::io::Error),
    Storage(String),
    UnsupportedFileType(String),
}

/// The text that `message` gives for an error that carries its own text;
/// `None` for the errors whose text the driver or the operating system words.
pub open spec fn message_text(e: SanchayaError) -> Option<Seq<char>> {
    match e {
        SanchayaError::NotFound(m) => Some("Document not found: "@ + m@),
        SanchayaError::Validation(m) => Some("Validation error: "@ + m@),
        SanchayaError::Storage(m) => Some("Storage error: "@ + m@),
        SanchayaError::UnsupportedFileType(m) => Some("Unsupported file type: "@ + m@),
        SanchayaError::Database(_) => None,
        SanchayaError::Io(_) => None,
    }
}

/// The first words of the message of each kind of error.
pub open spec fn message_prefix(e: SanchayaError) -> Seq<char> {
    match e {
        SanchayaError::Database(_) => "Database error: "@,
        SanchayaError::NotFound(_) => "Document not found: "@,
        SanchayaError::Validation(_) => "Validation error: "@,
        SanchayaError::Io(_) => "IO error: "@,
        SanchayaError::Storage(_) => "Storage error: "@,
        SanchayaError::UnsupportedFileType(_) => "Unsupported file type: "@,
    }
}

/// `rusqlite::Error` written out by its `Display` impl. Nothing is stated of
/// the text: it is the driver's wording for an error value that Verus cannot
/// look into.
#[verifier::external_body]
fn sqlite_error_text(e: &rusqlite::Error) -> String {
    format!("{}", e)
}

/// `std::io::Error` written out by its `Display` impl. Nothing is stated of
/// the text: it is the operating system's wording for an error value that
/// Verus cannot look into.
#[verifier::external_body]
fn io_error_text(e: &std::io::Error) -> String {
    format!("{}", e)
}

/// The error that the driver reports for a query it cannot use,
/// `rusqlite::Error::InvalidQuery`. Verus sees the value as opaque.
#[verifier::external_body]
pub(crate) fn invalid_query_error() -> rusqlite::Error {
    rusqlite::Error::InvalidQuery
}

fn prefixed(prefix: &str, rest: &str) -> (r: String)
    ensures
        r@ == prefix@ + rest@,
{
    let mut r = String::from_str(prefix);
    r.append(rest);
    r
}

impl SanchayaError {
    /// The message shown to the user for this error.
    pub fn message(&self) -> (r: String)
        ensures
            message_text(*self) matches Some(t) ==> r@ == t,
            message_prefix(*self).is_prefix_of(r@),
    {
        match self {
            SanchayaError::Database(e) => {
                let detail = sqlite_error_text(e);
                prefixed("Database error: ", detail.as_str())
            },
            SanchayaError::NotFound(m) => prefixed("Document not found: ", m.as_str()),
            SanchayaError::Validation(m) => prefixed("Validation error: ", m.as_str()),
            SanchayaError::Io(e) => {
                let detail = io_error_text(e);
                prefixed("IO error: ", detail.as_str())
            },
            SanchayaError::Storage(m) => prefixed("Storage error: ", m.as_str()),
            SanchayaError::UnsupportedFileType(m) => prefixed("Unsupported file type: ", m.as_str()),
        }
    }
}

} // verus!
