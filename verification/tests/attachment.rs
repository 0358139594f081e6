use sanchaya::domain::attachment::{mime_from_extension, no_attachment_error, require_attachment, Attachment};
use sanchaya::shared::errors::SanchayaError;
use sanchaya::shared::time::Timestamp;

fn valid_attachment() -> Result<Attachment, SanchayaError> {
    Attachment::new(
        "doc-123".to_string(),
        "passport.pdf".to_string(),
        "application/pdf".to_string(),
        1024,
    )
}

// -- Construction --------------------------------------------------------

#[test]
fn new_returns_ok_for_valid_pdf() {
    assert!(valid_attachment().is_ok());
}

#[test]
fn new_returns_ok_for_jpeg() {
    let result = Attachment::new(
        "doc-123".to_string(),
        "photo.jpg".to_string(),
        "image/jpeg".to_string(),
        2048,
    );
    assert!(result.is_ok());
}

#[test]
fn new_returns_ok_for_png() {
    let result = Attachment::new(
        "doc-123".to_string(),
        "scan.png".to_string(),
        "image/png".to_string(),
        4096,
    );
    assert!(result.is_ok());
}

#[test]
fn new_returns_ok_for_webp() {
    let result = Attachment::new(
        "doc-123".to_string(),
        "image.webp".to_string(),
        "image/webp".to_string(),
        512,
    );
    assert!(result.is_ok());
}

#[test]
fn new_generates_non_empty_id() {
    let a = valid_attachment().unwrap();
    assert!(!a.id.is_empty());
}

#[test]
fn new_generates_unique_ids() {
    let a = valid_attachment().unwrap();
    let b = valid_attachment().unwrap();
    assert_ne!(a.id, b.id);
}

#[test]
fn new_generates_unique_stored_filenames() {
    let a = valid_attachment().unwrap();
    let b = valid_attachment().unwrap();
    assert_ne!(a.stored_filename, b.stored_filename);
}

#[test]
fn stored_filename_uses_correct_extension_for_pdf() {
    let a = valid_attachment().unwrap();
    assert!(a.stored_filename.ends_with(".pdf"));
}

#[test]
fn stored_filename_uses_correct_extension_for_jpeg() {
    let a = Attachment::new(
        "doc-123".to_string(),
        "photo.jpg".to_string(),
        "image/jpeg".to_string(),
        1024,
    )
    .unwrap();
    assert!(a.stored_filename.ends_with(".jpg"));
}

#[test]
fn stored_filename_uses_correct_extension_for_png() {
    let a = Attachment::new(
        "doc-123".to_string(),
        "scan.png".to_string(),
        "image/png".to_string(),
        1024,
    )
    .unwrap();
    assert!(a.stored_filename.ends_with(".png"));
}

#[test]
fn stored_filename_uses_correct_extension_for_webp() {
    let a = Attachment::new(
        "doc-123".to_string(),
        "img.webp".to_string(),
        "image/webp".to_string(),
        1024,
    )
    .unwrap();
    assert!(a.stored_filename.ends_with(".webp"));
}

#[test]
fn stored_filename_contains_no_user_input() {
    let a = Attachment::new(
        "doc-123".to_string(),
        "../../etc/passwd".to_string(),
        "application/pdf".to_string(),
        1024,
    )
    .unwrap();
    assert!(!a.stored_filename.contains(".."));
    assert!(!a.stored_filename.contains("passwd"));
    assert!(!a.stored_filename.contains("/"));
}

#[test]
fn new_preserves_original_filename() {
    let a = valid_attachment().unwrap();
    assert_eq!(a.original_filename, "passport.pdf");
}

#[test]
fn new_trims_whitespace_from_filename() {
    let a = Attachment::new(
        "doc-123".to_string(),
        "  passport.pdf  ".to_string(),
        "application/pdf".to_string(),
        1024,
    )
    .unwrap();
    assert_eq!(a.original_filename, "passport.pdf");
}

// -- Validation ----------------------------------------------------------

#[test]
fn new_rejects_empty_document_id() {
    let result = Attachment::new(
        "".to_string(),
        "passport.pdf".to_string(),
        "application/pdf".to_string(),
        1024,
    );
    assert!(result.is_err());
    match result {
        Err(SanchayaError::Validation(msg)) => assert!(msg.contains("document_id")),
        _ => panic!("Expected Validation error"),
    }
}

#[test]
fn new_rejects_whitespace_only_document_id() {
    let result = Attachment::new(
        "   ".to_string(),
        "passport.pdf".to_string(),
        "application/pdf".to_string(),
        1024,
    );
    assert!(result.is_err());
}

#[test]
fn new_rejects_empty_filename() {
    let result = Attachment::new(
        "doc-123".to_string(),
        "".to_string(),
        "application/pdf".to_string(),
        1024,
    );
    assert!(result.is_err());
    match result {
        Err(SanchayaError::Validation(msg)) => assert!(msg.contains("original_filename")),
        _ => panic!("Expected Validation error"),
    }
}

#[test]
fn new_rejects_whitespace_only_filename() {
    let result = Attachment::new(
        "doc-123".to_string(),
        "   ".to_string(),
        "application/pdf".to_string(),
        1024,
    );
    assert!(result.is_err());
}

#[test]
fn new_rejects_unsupported_mime_type() {
    let result = Attachment::new(
        "doc-123".to_string(),
        "virus.exe".to_string(),
        "application/x-msdownload".to_string(),
        1024,
    );
    assert!(result.is_err());
    match result {
        Err(SanchayaError::UnsupportedFileType(_)) => {}
        _ => panic!("Expected UnsupportedFileType error"),
    }
}

#[test]
fn new_rejects_zero_size() {
    let result = Attachment::new(
        "doc-123".to_string(),
        "passport.pdf".to_string(),
        "application/pdf".to_string(),
        0,
    );
    assert!(result.is_err());
    match result {
        Err(SanchayaError::Validation(msg)) => assert!(msg.contains("size_bytes")),
        _ => panic!("Expected Validation error"),
    }
}

// -- mime_from_extension -------------------------------------------------

#[test]
fn mime_from_extension_pdf() {
    assert_eq!(mime_from_extension("pdf"), Some("application/pdf"));
}

#[test]
fn mime_from_extension_jpg() {
    assert_eq!(mime_from_extension("jpg"), Some("image/jpeg"));
}

#[test]
fn mime_from_extension_jpeg() {
    assert_eq!(mime_from_extension("jpeg"), Some("image/jpeg"));
}

#[test]
fn mime_from_extension_png() {
    assert_eq!(mime_from_extension("png"), Some("image/png"));
}

#[test]
fn mime_from_extension_webp() {
    assert_eq!(mime_from_extension("webp"), Some("image/webp"));
}

#[test]
fn mime_from_extension_case_insensitive() {
    assert_eq!(mime_from_extension("PDF"), Some("application/pdf"));
    assert_eq!(mime_from_extension("JPG"), Some("image/jpeg"));
}

#[test]
fn mime_from_extension_unknown_returns_none() {
    assert_eq!(mime_from_extension("exe"), None);
    assert_eq!(mime_from_extension("docx"), None);
    assert_eq!(mime_from_extension(""), None);
}

// -- type_label ----------------------------------------------------------

#[test]
fn type_label_pdf() {
    let a = valid_attachment().unwrap();
    assert_eq!(a.type_label(), "PDF");
}

#[test]
fn type_label_jpeg() {
    let a = Attachment::new(
        "doc-123".to_string(),
        "photo.jpg".to_string(),
        "image/jpeg".to_string(),
        1024,
    )
    .unwrap();
    assert_eq!(a.type_label(), "JPG");
}

// -- further cases -------------------------------------------------------

fn at(seconds: i64) -> Timestamp {
    Timestamp { seconds, nanoseconds: 0 }
}

#[test]
fn assemble_names_stored_file_after_stem_and_type() {
    let a = Attachment::assemble(
        "att-1".to_string(),
        "0f0f0f0f-1111-4222-8333-444444444444".to_string(),
        at(42),
        " doc-1 ".to_string(),
        " My Scan.PNG ".to_string(),
        " image/png ".to_string(),
        77,
    )
    .unwrap();
    assert_eq!(a.id, "att-1");
    assert_eq!(a.document_id, "doc-1");
    assert_eq!(a.original_filename, "My Scan.PNG");
    assert_eq!(a.mime_type, "image/png");
    assert_eq!(a.size_bytes, 77);
    assert_eq!(a.stored_filename, "0f0f0f0f-1111-4222-8333-444444444444.png");
    assert_eq!(a.created_at, at(42));
    assert_eq!(a.type_label(), "PNG");
}

#[test]
fn assemble_checks_in_order() {
    let blank_both = Attachment::assemble(
        "a".to_string(),
        "s".to_string(),
        at(0),
        " ".to_string(),
        "".to_string(),
        "text/plain".to_string(),
        0,
    );
    assert!(matches!(blank_both, Err(SanchayaError::Validation(m)) if m == "document_id cannot be empty"));
    let bad_type_and_size = Attachment::assemble(
        "a".to_string(),
        "s".to_string(),
        at(0),
        "doc".to_string(),
        "f".to_string(),
        "  text/plain ".to_string(),
        0,
    );
    assert!(matches!(bad_type_and_size, Err(SanchayaError::UnsupportedFileType(m)) if m == "text/plain"));
    let empty = Attachment::assemble(
        "a".to_string(),
        "s".to_string(),
        at(0),
        "doc".to_string(),
        "f".to_string(),
        "image/webp".to_string(),
        0,
    );
    assert!(matches!(empty, Err(SanchayaError::Validation(m)) if m == "size_bytes must be greater than zero"));
}

#[test]
fn mime_type_match_is_exact_after_trimming() {
    let upper = Attachment::new(
        "doc".to_string(),
        "f".to_string(),
        "APPLICATION/PDF".to_string(),
        1,
    );
    assert!(matches!(upper, Err(SanchayaError::UnsupportedFileType(m)) if m == "APPLICATION/PDF"));
}

#[test]
fn type_label_for_each_type() {
    for (mime, label) in [
        ("application/pdf", "PDF"),
        ("image/jpeg", "JPG"),
        ("image/png", "PNG"),
        ("image/webp", "WebP"),
        ("text/plain", "File"),
    ] {
        let a = Attachment {
            id: "a".to_string(),
            document_id: "d".to_string(),
            original_filename: "f".to_string(),
            mime_type: mime.to_string(),
            size_bytes: 1,
            stored_filename: "s".to_string(),
            created_at: at(0),
        };
        assert_eq!(a.type_label(), label);
    }
}

#[test]
fn mime_from_extension_mixed_case_and_near_misses() {
    assert_eq!(mime_from_extension("JpEg"), Some("image/jpeg"));
    assert_eq!(mime_from_extension("WebP"), Some("image/webp"));
    assert_eq!(mime_from_extension("pdf "), None);
    assert_eq!(mime_from_extension(".pdf"), None);
    assert_eq!(mime_from_extension("\u{212A}pg"), None);
}

#[test]
fn require_attachment_answers_each_lookup() {
    let missing = require_attachment(Ok(None), "doc-5");
    assert!(matches!(missing, Err(SanchayaError::NotFound(m)) if m == "No attachment found for document: doc-5"));
    let failed = require_attachment(Err(SanchayaError::Storage("disk".to_string())), "doc-5");
    assert!(matches!(failed, Err(SanchayaError::Storage(m)) if m == "disk"));
    let found = require_attachment(Ok(Some(valid_attachment().unwrap())), "doc-123").unwrap();
    assert_eq!(found.document_id, "doc-123");
    assert!(matches!(no_attachment_error("x"), SanchayaError::NotFound(m) if m == "No attachment found for document: x"));
}

#[test]
fn stored_extension_maps_back_to_the_file_type() {
    for mime in ["application/pdf", "image/jpeg", "image/png", "image/webp"] {
        let a = Attachment::new("doc".to_string(), "f".to_string(), mime.to_string(), 1).unwrap();
        let ext = a.stored_filename.rsplit('.').next().unwrap();
        assert_eq!(mime_from_extension(ext), Some(mime));
        assert_eq!(a.stored_filename.len(), 36 + 1 + ext.len());
        assert_eq!(a.stored_filename.chars().nth(14), Some('4'));
        assert!(matches!(a.stored_filename.chars().nth(19), Some('8' | '9' | 'a' | 'b')));
        assert_eq!(a.id.chars().nth(14), Some('4'));
    }
}
