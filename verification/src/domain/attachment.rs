//! The Attachment entity: the one file kept in the vault for a document, and
//! the rules on which files are taken and how they are named in the vault.

use crate::shared::errors::SanchayaError;
use crate::shared::ids::{is_lower_hex_digit, is_uuid_text, random_uuid_text};
use crate::shared::text::{
    ascii_lower, is_blank, is_white_space, same_text, same_text_ascii_lower, trim_leading, trim_text,
    trim_trailing, trimmed,
};
use crate::shared::time::{Timestamp, is_clock_reading};
use vstd::prelude::*;

verus! {

/// The MIME type of a file extension given in small letters; `None` for an
/// extension that the vault does not take.
pub open spec fn mime_for_extension(ext: Seq<char>) -> Option<Seq<char>> {
    if ext == "pdf"@ {
        Some("application/pdf"@)
    } else if ext == "jpg"@ || ext == "jpeg"@ {
        Some("image/jpeg"@)
    } else if ext == "png"@ {
        Some("image/png"@)
    } else if ext == "webp"@ {
        Some("image/webp"@)
    } else {
        None
    }
}

/// The file types that the vault takes.
pub open spec fn is_supported_mime(m: Seq<char>) -> bool {
    m == "application/pdf"@ || m == "image/jpeg"@ || m == "image/png"@ || m == "image/webp"@
}

/// The extension that a stored file of this MIME type is given.
pub open spec fn stored_extension(m: Seq<char>) -> Seq<char> {
    if m == "application/pdf"@ {
        "pdf"@
    } else if m == "image/jpeg"@ {
        "jpg"@
    } else if m == "image/png"@ {
        "png"@
    } else if m == "image/webp"@ {
        "webp"@
    } else {
        "bin"@
    }
}

/// The short name of a file type shown to the user.
pub open spec fn type_label_for(m: Seq<char>) -> Seq<char> {
    if m == "application/pdf"@ {
        "PDF"@
    } else if m == "image/jpeg"@ {
        "JPG"@
    } else if m == "image/png"@ {
        "PNG"@
    } else if m == "image/webp"@ {
        "WebP"@
    } else {
        "File"@
    }
}

/// The name under which a file is kept in the vault: a generated stem, a dot,
/// and the extension of its MIME type.
pub open spec fn vault_filename(stem: Seq<char>, mime: Seq<char>) -> Seq<char> {
    stem + "."@ + stored_extension(mime)
}

/// Each file type that an extension maps to is one that the vault takes, and
/// it has no white space to trim: a file picked by its extension passes the
/// file type check of `Attachment::new`.
pub proof fn lemma_extension_mime_is_supported(ext: Seq<char>)
    requires
        mime_for_extension(ext) is Some,
    ensures
        is_supported_mime(mime_for_extension(ext)->0),
        trimmed(mime_for_extension(ext)->0) == mime_for_extension(ext)->0,
{
    let m = mime_for_extension(ext)->0;
    reveal_strlit("application/pdf");
    reveal_strlit("image/jpeg");
    reveal_strlit("image/png");
    reveal_strlit("image/webp");
    assert(m.len() > 0 && !is_white_space(m[0]) && !is_white_space(m.last()));
    assert(trim_leading(m) == m);
    assert(trim_trailing(m) == m);
}

/// The extension that a stored file is given maps back to its file type.
pub proof fn lemma_stored_extension_round_trip(m: Seq<char>)
    requires
        is_supported_mime(m),
    ensures
        mime_for_extension(stored_extension(m)) == Some(m),
        ascii_lower(stored_extension(m)) == stored_extension(m),
{
    reveal_strlit("application/pdf");
    reveal_strlit("image/jpeg");
    reveal_strlit("image/png");
    reveal_strlit("image/webp");
    reveal_strlit("pdf");
    reveal_strlit("jpg");
    reveal_strlit("jpeg");
    reveal_strlit("png");
    reveal_strlit("webp");
    let e = stored_extension(m);
    assert(ascii_lower(e) =~= e);
    assert(e.len() == 3 || e.len() == 4);
    assert("jpg"@.len() != "jpeg"@.len());
    assert("pdf"@[0] != "jpg"@[0] && "pdf"@[1] != "png"@[1] && "pdf"@[0] != "webp"@[0]);
    assert("jpg"@[0] != "png"@[0] && "jpg"@[0] != "webp"@[0] && "png"@[0] != "webp"@[0]);
    assert("application/pdf"@[0] != "image/jpeg"@[0]);
    assert("image/jpeg"@[6] != "image/png"@[6] && "image/jpeg"@[6] != "image/webp"@[6]
        && "image/png"@[6] != "image/webp"@[6]);
}

/// A stored file name is made of the generated stem and the extension of its
/// file type alone: whatever the user's file was called, the name has no path
/// separator and no `..`, and it ends in a dot and the type's extension.
pub proof fn lemma_vault_filename_is_safe(stem: Seq<char>, mime: Seq<char>)
    requires
        is_uuid_text(stem),
    ensures
        !vault_filename(stem, mime).contains('/'),
        forall|i: int|
            0 <= i < vault_filename(stem, mime).len() - 1 ==> !(#[trigger] vault_filename(stem, mime)[i]
                == '.' && vault_filename(stem, mime)[i + 1] == '.'),
        vault_filename(stem, mime).skip(36) == "."@ + stored_extension(mime),
{
    reveal_strlit(".");
    reveal_strlit("pdf");
    reveal_strlit("jpg");
    reveal_strlit("png");
    reveal_strlit("webp");
    reveal_strlit("bin");
    let v = vault_filename(stem, mime);
    let ext = stored_extension(mime);
    assert(forall|j: int| 0 <= j < ext.len() ==> 'a' <= #[trigger] ext[j] && ext[j] <= 'z');
    assert(forall|i: int| 0 <= i < 36 ==> v[i] == stem[i]);
    assert(v[36] == '.');
    assert(forall|i: int| 37 <= i < v.len() ==> v[i] == ext[i - 37]);
    assert forall|i: int| 0 <= i < v.len() implies #[trigger] v[i] != '/' by {
        if i < 36 {
            assert(stem[i] == '-' || is_lower_hex_digit(stem[i]));
        } else if i > 36 {
            assert(ext[i - 37] != '/');
        }
    }
    assert forall|i: int| 0 <= i < v.len() - 1 implies !(#[trigger] v[i] == '.' && v[i + 1] == '.') by {
        if i < 36 {
            assert(stem[i] == '-' || is_lower_hex_digit(stem[i]));
        } else {
            assert(ext[i + 1 - 37] != '.');
        }
    }
    assert(v.skip(36) =~= "."@ + ext);
}

/// The MIME type of a file extension, its letters compared without regard to
/// case; `None` for an extension that the vault does not take.
pub fn mime_from_extension(ext: &str) -> (r: Option<&'static str>)
    ensures
        match r {
            Some(m) => mime_for_extension(ascii_lower(ext@)) == Some(m@),
            None => mime_for_extension(ascii_lower(ext@)) is None,
        },
{
    if same_text_ascii_lower(ext, "pdf") {
        Some("application/pdf")
    } else if same_text_ascii_lower(ext, "jpg") || same_text_ascii_lower(ext, "jpeg") {
        Some("image/jpeg")
    } else if same_text_ascii_lower(ext, "png") {
        Some("image/png")
    } else if same_text_ascii_lower(ext, "webp") {
        Some("image/webp")
    } else {
        None
    }
}

fn is_supported_mime_type(m: &str) -> (r: bool)
    ensures
        r == is_supported_mime(m@),
{
    same_text(m, "application/pdf") || same_text(m, "image/jpeg") || same_text(m, "image/png")
        || same_text(m, "image/webp")
}

fn stored_extension_of(m: &str) -> (r: &'static str)
    ensures
        r@ == stored_extension(m@),
{
    if same_text(m, "application/pdf") {
        "pdf"
    } else if same_text(m, "image/jpeg") {
        "jpg"
    } else if same_text(m, "image/png") {
        "png"
    } else if same_text(m, "image/webp") {
        "webp"
    } else {
        "bin"
    }
}

/// The record of a document's file: what the user called it, its type and
/// size, and the generated name under which the vault keeps it.
#[derive(Debug, Clone)]
pub struct Attachment {
    pub id: String,
    pub document_id: String,
    pub original_filename: String,
    pub mime_type: String,
    pub size_bytes: u64,
    pub stored_filename: String,
    pub created_at: Timestamp,
}

/// `e` is a validation error with the message `m`.
pub open spec fn is_validation_error(e: SanchayaError, m: Seq<char>) -> bool {
    e matches SanchayaError::Validation(t) && t@ == m
}

/// The inputs of a new attachment pass every check.
pub open spec fn valid_attachment_input(
    document_id: Seq<char>,
    original_filename: Seq<char>,
    mime_type: Seq<char>,
    size_bytes: u64,
) -> bool {
    &&& !is_blank(document_id)
    &&& !is_blank(original_filename)
    &&& is_supported_mime(trimmed(mime_type))
    &&& size_bytes > 0
}

/// `e` is the error that the first failing check on these inputs answers
/// with: a blank document id, then a blank file name, then a file type the
/// vault does not take, then an empty file.
pub open spec fn attachment_input_error(
    e: SanchayaError,
    document_id: Seq<char>,
    original_filename: Seq<char>,
    mime_type: Seq<char>,
    size_bytes: u64,
) -> bool {
    if is_blank(document_id) {
        is_validation_error(e, "document_id cannot be empty"@)
    } else if is_blank(original_filename) {
        is_validation_error(e, "original_filename cannot be empty"@)
    } else if !is_supported_mime(trimmed(mime_type)) {
        e matches SanchayaError::UnsupportedFileType(m) && m@ == trimmed(mime_type)
    } else {
        size_bytes == 0 && is_validation_error(e, "size_bytes must be greater than zero"@)
    }
}

/// `a` holds the inputs, trimmed, under the given id, stem and time.
pub open spec fn assembled_attachment(
    a: Attachment,
    id: Seq<char>,
    stem: Seq<char>,
    now: Timestamp,
    document_id: Seq<char>,
    original_filename: Seq<char>,
    mime_type: Seq<char>,
    size_bytes: u64,
) -> bool {
    &&& a.id@ == id
    &&& a.document_id@ == trimmed(document_id)
    &&& a.original_filename@ == trimmed(original_filename)
    &&& a.mime_type@ == trimmed(mime_type)
    &&& a.size_bytes == size_bytes
    &&& a.stored_filename@ == vault_filename(stem, trimmed(mime_type))
    &&& a.created_at == now
}

fn validation_error(m: &str) -> (e: SanchayaError)
    ensures
        is_validation_error(e, m@),
{
    SanchayaError::Validation(String::from_str(m))
}

impl Attachment {
    /// The error that the checks on a new attachment's inputs give, or `None`
    /// where the inputs pass.
    fn input_error(document_id: &str, original_filename: &str, mime_type: &str, size_bytes: u64) -> (r:
        Option<SanchayaError>)
        ensures
            r is None <==> valid_attachment_input(document_id@, original_filename@, mime_type@, size_bytes),
            r matches Some(e) ==> attachment_input_error(e, document_id@, original_filename@, mime_type@, size_bytes),
    {
        let document_id = trim_text(document_id);
        if document_id.as_str().unicode_len() == 0 {
            return Some(validation_error("document_id cannot be empty"));
        }
        let original_filename = trim_text(original_filename);
        if original_filename.as_str().unicode_len() == 0 {
            return Some(validation_error("original_filename cannot be empty"));
        }
        let mime_type = trim_text(mime_type);
        if !is_supported_mime_type(mime_type.as_str()) {
            return Some(SanchayaError::UnsupportedFileType(mime_type));
        }
        if size_bytes == 0 {
            return Some(validation_error("size_bytes must be greater than zero"));
        }
        None
    }

    /// A new attachment record for a document's file. The id and the stem of
    /// the stored file name are fresh random UUIDs, so the stored name holds
    /// nothing of what the user chose; the extension follows the MIME type.
    pub fn new(document_id: String, original_filename: String, mime_type: String, size_bytes: u64) -> (r:
        Result<Attachment, SanchayaError>)
        ensures
            r is Ok <==> valid_attachment_input(document_id@, original_filename@, mime_type@, size_bytes),
            r matches Err(e) ==> attachment_input_error(e, document_id@, original_filename@, mime_type@, size_bytes),
            r matches Ok(a) ==> exists|id: Seq<char>, stem: Seq<char>, now: Timestamp| {
                &&& is_uuid_text(id)
                &&& is_uuid_text(stem)
                &&& is_clock_reading(now)
                &&& assembled_attachment(a, id, stem, now, document_id@, original_filename@, mime_type@, size_bytes)
            },
    {
        if let Some(e) = Attachment::input_error(
            document_id.as_str(),
            original_filename.as_str(),
            mime_type.as_str(),
            size_bytes,
        ) {
            return Err(e);
        }
        let stem = random_uuid_text();
        let id = random_uuid_text();
        let now = Timestamp::now();
        let ghost id_text = id@;
        let ghost stem_text = stem@;
        let r = Attachment::assemble(id, stem, now, document_id, original_filename, mime_type, size_bytes);
        assert(r matches Ok(a) ==> assembled_attachment(a, id_text, stem_text, now, document_id@, original_filename@, mime_type@, size_bytes));
        r
    }

    /// The attachment that `new` makes when the fresh id is `id`, the fresh
    /// stem is `stem` and the clock reads `now`.
    pub fn assemble(
        id: String,
        stem: String,
        now: Timestamp,
        document_id: String,
        original_filename: String,
        mime_type: String,
        size_bytes: u64,
    ) -> (r: Result<Attachment, SanchayaError>)
        ensures
            r is Ok <==> valid_attachment_input(document_id@, original_filename@, mime_type@, size_bytes),
            r matches Err(e) ==> attachment_input_error(e, document_id@, original_filename@, mime_type@, size_bytes),
            r matches Ok(a) ==> assembled_attachment(a, id@, stem@, now, document_id@, original_filename@, mime_type@, size_bytes),
    {
        if let Some(e) = Attachment::input_error(
            document_id.as_str(),
            original_filename.as_str(),
            mime_type.as_str(),
            size_bytes,
        ) {
            return Err(e);
        }
        let document_id = trim_text(document_id.as_str());
        let original_filename = trim_text(original_filename.as_str());
        let mime_type = trim_text(mime_type.as_str());
        let mut stored_filename = stem;
        stored_filename.append(".");
        stored_filename.append(stored_extension_of(mime_type.as_str()));
        Ok(Attachment {
            id,
            document_id,
            original_filename,
            mime_type,
            size_bytes,
            stored_filename,
            created_at: now,
        })
    }

    /// The short name of this attachment's file type.
    pub fn type_label(&self) -> (r: &'static str)
        ensures
            r@ == type_label_for(self.mime_type@),
    {
        let m = self.mime_type.as_str();
        if same_text(m, "application/pdf") {
            "PDF"
        } else if same_text(m, "image/jpeg") {
            "JPG"
        } else if same_text(m, "image/png") {
            "PNG"
        } else if same_text(m, "image/webp") {
            "WebP"
        } else {
            "File"
        }
    }
}

/// The message of the error that a document without an attachment record is
/// answered with.
pub open spec fn no_attachment_message(document_id: Seq<char>) -> Seq<char> {
    "No attachment found for document: "@ + document_id
}

/// `e` reports that the document `document_id` has no attachment record.
pub open spec fn is_no_attachment_error(e: SanchayaError, document_id: Seq<char>) -> bool {
    e matches SanchayaError::NotFound(m) && m@ == no_attachment_message(document_id)
}

/// The error for a document that has no attachment record.
pub fn no_attachment_error(document_id: &str) -> (e: SanchayaError)
    ensures
        is_no_attachment_error(e, document_id@),
{
    let mut m = String::from_str("No attachment found for document: ");
    m.append(document_id);
    SanchayaError::NotFound(m)
}

/// The attachment record that a lookup for `document_id` found, the
/// no-attachment error where it found none, or the lookup's own error.
pub fn require_attachment(found: Result<Option<Attachment>, SanchayaError>, document_id: &str) -> (r:
    Result<Attachment, SanchayaError>)
    ensures
        match found {
            Ok(Some(a)) => r == Ok::<Attachment, SanchayaError>(a),
            Ok(None) => r matches Err(e) && is_no_attachment_error(e, document_id@),
            Err(e) => r == Err::<Attachment, SanchayaError>(e),
        },
{
    match found {
        Ok(Some(a)) => Ok(a),
        Ok(None) => Err(no_attachment_error(document_id)),
        Err(e) => Err(e),
    }
}

/// Where attachment records are kept, at most one per document. The vault's
/// own implementation keeps them in SQLite.
///
/// Each method is tied to a relation between its arguments and its answer,
/// which an implementation may narrow; by default a relation admits every
/// answer, so nothing is claimed of an implementation that leaves it as it
/// is. A use case that states its answer through these relations can only
/// pass on what the repository answered, for every repository.
pub trait AttachmentRepository {
    /// Whether `r` is an answer that `save` gives for `attachment`.
    open spec fn saves(&self, attachment: Attachment, r: Result<(), SanchayaError>) -> bool {
        true
    }

    fn save(&self, attachment: &Attachment) -> (r: Result<(), SanchayaError>)
        ensures
            self.saves(*attachment, r),
    ;

    /// Whether `r` is an answer that `find_by_document_id` gives for
    /// `document_id`.
    open spec fn finds(&self, document_id: Seq<char>, r: Result<Option<Attachment>, SanchayaError>) -> bool {
        true
    }

    fn find_by_document_id(&self, document_id: &str) -> (r: Result<Option<Attachment>, SanchayaError>)
        ensures
            self.finds(document_id@, r),
    ;

    /// Whether `r` is an answer that `delete_by_document_id` gives for
    /// `document_id`.
    open spec fn deletes(&self, document_id: Seq<char>, r: Result<(), SanchayaError>) -> bool {
        true
    }

    fn delete_by_document_id(&self, document_id: &str) -> (r: Result<(), SanchayaError>)
        ensures
            self.deletes(document_id@, r),
    ;

    /// Whether `r` is an answer that `update` gives for `attachment`.
    open spec fn updates(&self, attachment: Attachment, r: Result<(), SanchayaError>) -> bool {
        true
    }

    fn update(&self, attachment: &Attachment) -> (r: Result<(), SanchayaError>)
        ensures
            self.updates(*attachment, r),
    ;
}

} // verus!
