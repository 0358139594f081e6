//! The records of the vault's database as plain column values, and what the
//! database's answers mean for the vault.

use crate::domain::attachment::{Attachment, is_no_attachment_error, no_attachment_error};
use crate::domain::document::{
    Document, DocumentCategory, category_name, category_named, is_document_not_found,
    lemma_category_name_round_trip,
};
use crate::shared::errors::{SanchayaError, invalid_query_error, message_prefix, message_text};
use crate::shared::time::{Timestamp, is_storable_instant, parsed_instant, rfc3339_text};
use vstd::prelude::*;

verus! {

/// The columns of a row of the `documents` table; dates are RFC 3339 texts.
pub struct DocumentColumns {
    pub id: String,
    pub title: String,
    pub category: String,
    pub description: Option<String>,
    pub file_path: Option<String>,
    pub issuer: Option<String>,
    pub issue_date: Option<String>,
    pub expiry_date: Option<String>,
    pub created_at: String,
    pub updated_at: String,
}

/// The columns of a row of the `attachments` table; the size is SQLite's
/// signed integer and the date an RFC 3339 text.
pub struct AttachmentColumns {
    pub id: String,
    pub document_id: String,
    pub original_filename: String,
    pub mime_type: String,
    pub size_bytes: i64,
    pub stored_filename: String,
    pub created_at: String,
}

/// The date that an optional date column holds: none where the column is
/// null or its text does not parse.
pub open spec fn stored_date(text: Option<String>) -> Option<Timestamp> {
    match text {
        Some(t) => parsed_instant(t@),
        None => None,
    }
}

/// `d` is what a document row with the columns `c` reads as.
pub open spec fn decoded_document(c: DocumentColumns, d: Document) -> bool {
    &&& d.id == c.id
    &&& d.title == c.title
    &&& d.category == category_named(c.category@)
    &&& d.description == c.description
    &&& d.file_path == c.file_path
    &&& d.issuer == c.issuer
    &&& d.issue_date == stored_date(c.issue_date)
    &&& d.expiry_date == stored_date(c.expiry_date)
    &&& Some(d.created_at) == parsed_instant(c.created_at@)
    &&& Some(d.updated_at) == parsed_instant(c.updated_at@)
}

/// `a` is what an attachment row with the columns `c` reads as.
pub open spec fn decoded_attachment(c: AttachmentColumns, a: Attachment) -> bool {
    &&& a.id == c.id
    &&& a.document_id == c.document_id
    &&& a.original_filename == c.original_filename
    &&& a.mime_type == c.mime_type
    &&& a.size_bytes == c.size_bytes as u64
    &&& a.stored_filename == c.stored_filename
    &&& Some(a.created_at) == parsed_instant(c.created_at@)
}

/// The column `text` holds the instant `t` as RFC 3339 text, which reads back
/// as `t` where `t` is storable.
pub open spec fn holds_instant(text: String, t: Timestamp) -> bool {
    &&& rfc3339_text(t.seconds, t.nanoseconds) == Some(text@)
    &&& is_storable_instant(t) ==> parsed_instant(text@) == Some(t)
}

/// The optional column `text` holds the optional date `t`.
pub open spec fn holds_date(text: Option<String>, t: Option<Timestamp>) -> bool {
    match t {
        None => text is None,
        Some(t) => text matches Some(s) && holds_instant(s, t),
    }
}

/// The columns `c` are the row written for the document `d`.
pub open spec fn written_document(c: DocumentColumns, d: Document) -> bool {
    &&& c.id == d.id
    &&& c.title == d.title
    &&& c.category@ == category_name(d.category)
    &&& c.description == d.description
    &&& c.file_path == d.file_path
    &&& c.issuer == d.issuer
    &&& holds_date(c.issue_date, d.issue_date)
    &&& holds_date(c.expiry_date, d.expiry_date)
    &&& holds_instant(c.created_at, d.created_at)
    &&& holds_instant(c.updated_at, d.updated_at)
}

/// The columns `c` are the row written for the attachment `a`.
pub open spec fn written_attachment(c: AttachmentColumns, a: Attachment) -> bool {
    &&& c.id == a.id
    &&& c.document_id == a.document_id
    &&& c.original_filename == a.original_filename
    &&& c.mime_type == a.mime_type
    &&& c.size_bytes == a.size_bytes as i64
    &&& c.stored_filename == a.stored_filename
    &&& holds_instant(c.created_at, a.created_at)
}

/// Every time of the document is storable: in years 0 to 9999, its
/// nanoseconds below a second or making a leap second.
pub open spec fn is_storable_document(d: Document) -> bool {
    &&& is_storable_instant(d.created_at)
    &&& is_storable_instant(d.updated_at)
    &&& d.issue_date matches Some(t) ==> is_storable_instant(t)
    &&& d.expiry_date matches Some(t) ==> is_storable_instant(t)
}

/// Every date of the document can be written as RFC 3339 text.
pub open spec fn is_writable_document(d: Document) -> bool {
    &&& rfc3339_text(d.created_at.seconds, d.created_at.nanoseconds) is Some
    &&& rfc3339_text(d.updated_at.seconds, d.updated_at.nanoseconds) is Some
    &&& d.issue_date matches Some(t) ==> rfc3339_text(t.seconds, t.nanoseconds) is Some
    &&& d.expiry_date matches Some(t) ==> rfc3339_text(t.seconds, t.nanoseconds) is Some
}

fn copy_text(text: &Option<String>) -> (r: Option<String>)
    ensures
        r == *text,
{
    match text {
        Some(t) => Some(t.clone()),
        None => None,
    }
}

fn write_date(t: Option<Timestamp>) -> (r: Option<Option<String>>)
    ensures
        match t {
            None => r == Some(None::<String>),
            Some(t) => match r {
                Some(text) => holds_date(text, Some(t)),
                None => rfc3339_text(t.seconds, t.nanoseconds) is None,
            },
        },
{
    match t {
        None => Some(None),
        Some(t) => match t.to_rfc3339() {
            Some(text) => Some(Some(text)),
            None => None,
        },
    }
}

/// The row written for a document: the category by name, each date as RFC
/// 3339 text; `None` where a date cannot be written, which only a date
/// outside chrono's range can cause.
pub fn document_columns(d: &Document) -> (r: Option<DocumentColumns>)
    ensures
        r is Some <==> is_writable_document(*d),
        r matches Some(c) ==> written_document(c, *d),
{
    let issue_date = match write_date(d.issue_date) {
        Some(t) => t,
        None => {
            return None;
        },
    };
    let expiry_date = match write_date(d.expiry_date) {
        Some(t) => t,
        None => {
            return None;
        },
    };
    let created_at = match d.created_at.to_rfc3339() {
        Some(t) => t,
        None => {
            return None;
        },
    };
    let updated_at = match d.updated_at.to_rfc3339() {
        Some(t) => t,
        None => {
            return None;
        },
    };
    Some(DocumentColumns {
        id: d.id.clone(),
        title: d.title.clone(),
        category: String::from_str(d.category.as_str()),
        description: copy_text(&d.description),
        file_path: copy_text(&d.file_path),
        issuer: copy_text(&d.issuer),
        issue_date,
        expiry_date,
        created_at,
        updated_at,
    })
}

/// The row written for an attachment record: the size as SQLite's signed
/// integer, the creation time as RFC 3339 text; `None` where that time cannot
/// be written, which only a time outside chrono's range can cause.
pub fn attachment_columns(a: &Attachment) -> (r: Option<AttachmentColumns>)
    ensures
        r is Some <==> rfc3339_text(a.created_at.seconds, a.created_at.nanoseconds) is Some,
        r matches Some(c) ==> written_attachment(c, *a),
{
    let created_at = match a.created_at.to_rfc3339() {
        Some(t) => t,
        None => {
            return None;
        },
    };
    Some(AttachmentColumns {
        id: a.id.clone(),
        document_id: a.document_id.clone(),
        original_filename: a.original_filename.clone(),
        mime_type: a.mime_type.clone(),
        size_bytes: a.size_bytes as i64,
        stored_filename: a.stored_filename.clone(),
        created_at,
    })
}

/// A document row reads back as the document it was written for, as long as
/// its times lie in years 0 to 9999 (leap seconds included).
pub proof fn lemma_document_row_reads_back(d: Document, c: DocumentColumns, back: Document)
    requires
        written_document(c, d),
        is_storable_document(d),
    ensures
        parsed_instant(c.created_at@) is Some,
        parsed_instant(c.updated_at@) is Some,
        decoded_document(c, back) ==> back == d,
{
    lemma_category_name_round_trip(d.category);
}

/// An attachment row reads back as the record it was written for, as long
/// as its creation time lies in years 0 to 9999; every size survives the
/// signed column.
pub proof fn lemma_attachment_row_reads_back(a: Attachment, c: AttachmentColumns, back: Attachment)
    requires
        written_attachment(c, a),
        is_storable_instant(a.created_at),
    ensures
        parsed_instant(c.created_at@) is Some,
        decoded_attachment(c, back) ==> back == a,
{
    let size = a.size_bytes;
    assert(((size as i64) as u64) == size) by (bit_vector);
}

fn read_stored_date(text: &Option<String>) -> (r: Option<Timestamp>)
    ensures
        r == stored_date(*text),
{
    match text {
        Some(t) => Timestamp::parse(t.as_str()),
        None => None,
    }
}

/// Reads a stored document. An optional date that does not parse is left out;
/// a creation or update time that does not parse makes the row unusable, a
/// database error; the category is read by name.
pub fn document_from_columns(c: DocumentColumns) -> (r: Result<Document, SanchayaError>)
    ensures
        r is Ok <==> parsed_instant(c.created_at@) is Some && parsed_instant(c.updated_at@) is Some,
        r matches Err(e) ==> e is Database,
        r matches Ok(d) ==> decoded_document(c, d),
{
    let issue_date = read_stored_date(&c.issue_date);
    let expiry_date = read_stored_date(&c.expiry_date);
    let created_at = match Timestamp::parse(c.created_at.as_str()) {
        Some(t) => t,
        None => {
            return Err(SanchayaError::Database(invalid_query_error()));
        },
    };
    let updated_at = match Timestamp::parse(c.updated_at.as_str()) {
        Some(t) => t,
        None => {
            return Err(SanchayaError::Database(invalid_query_error()));
        },
    };
    let category = DocumentCategory::from_name(c.category.as_str());
    Ok(Document {
        id: c.id,
        title: c.title,
        category,
        description: c.description,
        file_path: c.file_path,
        issuer: c.issuer,
        issue_date,
        expiry_date,
        created_at,
        updated_at,
    })
}

/// Reads a stored attachment record. The size is read back as the unsigned
/// number it was written from; a creation time that does not parse makes the
/// row unusable, a database error.
pub fn attachment_from_columns(c: AttachmentColumns) -> (r: Result<Attachment, SanchayaError>)
    ensures
        r is Ok <==> parsed_instant(c.created_at@) is Some,
        r matches Err(e) ==> e is Database,
        r matches Ok(a) ==> decoded_attachment(c, a),
{
    let created_at = match Timestamp::parse(c.created_at.as_str()) {
        Some(t) => t,
        None => {
            return Err(SanchayaError::Database(invalid_query_error()));
        },
    };
    Ok(Attachment {
        id: c.id,
        document_id: c.document_id,
        original_filename: c.original_filename,
        mime_type: c.mime_type,
        size_bytes: c.size_bytes as u64,
        stored_filename: c.stored_filename,
        created_at,
    })
}

/// What a statement on one document row means, given how many rows it
/// changed: none changed means the document is not there.
pub fn document_change_outcome(rows_changed: usize, id: &str) -> (r: Result<(), SanchayaError>)
    ensures
        rows_changed == 0 ==> (r matches Err(e) && is_document_not_found(e, id@)),
        rows_changed != 0 ==> r is Ok,
{
    if rows_changed == 0 {
        Err(SanchayaError::NotFound(String::from_str(id)))
    } else {
        Ok(())
    }
}

/// What a statement on a document's attachment record means, given how many
/// rows it changed: none changed means the document has no attachment.
pub fn attachment_change_outcome(rows_changed: usize, document_id: &str) -> (r: Result<(), SanchayaError>)
    ensures
        rows_changed == 0 ==> (r matches Err(e) && is_no_attachment_error(e, document_id@)),
        rows_changed != 0 ==> r is Ok,
{
    if rows_changed == 0 {
        Err(no_attachment_error(document_id))
    } else {
        Ok(())
    }
}

/// The error that listing answers with for a row it cannot read: a
/// validation error that carries the row's error message.
pub fn listing_row_error(e: &SanchayaError) -> (r: SanchayaError)
    ensures
        r matches SanchayaError::Validation(m) && message_prefix(*e).is_prefix_of(m@) && (message_text(*e) matches Some(t) ==> m@ == t),
{
    SanchayaError::Validation(e.message())
}

} // verus!
