use atlas_core::documents::{document_content, mime_for, DocumentRecord, ParseStatus};
use atlas_core::error::ErrorCode;
use atlas_core::ids::{DocumentId, WorkspaceId};
use atlas_core::requests::{FlashcardsRequest, QuizRequest};

fn viewer_document(file_type: &str, path: &str) -> DocumentRecord {
    DocumentRecord {
        id: DocumentId(1),
        workspace_id: WorkspaceId(1),
        relative_path: path.to_string(),
        content_hash: "h".to_string(),
        file_type: file_type.to_string(),
        size: 0,
        mtime: "t".to_string(),
        parse_status: ParseStatus::Parsed,
        last_indexed_hash: None,
    }
}

#[test]
fn mime_types_follow_file_type_and_image_extension() {
    assert_eq!(mime_for("pdf", "a.pdf"), "application/pdf");
    assert_eq!(mime_for("md", "a.md"), "text/markdown");
    assert_eq!(mime_for("image", "scan.PNG"), "image/png");
    assert_eq!(mime_for("image", "a.gif"), "image/gif");
    assert_eq!(mime_for("image", "a.webp"), "image/webp");
    assert_eq!(mime_for("image", "a.bmp"), "image/bmp");
    assert_eq!(mime_for("image", "photo.jpeg"), "image/jpeg");
    assert_eq!(mime_for("docx", "a.docx"), "application/octet-stream");
}

#[test]
fn markdown_is_served_as_text_and_other_types_as_base64() {
    let md = document_content(viewer_document("md", "notes.md"), b"# Title".to_vec()).unwrap();
    assert!(!md.is_base64);
    assert_eq!(md.content, "# Title");
    assert_eq!(md.mime, "text/markdown");
    let pdf = document_content(viewer_document("pdf", "paper.pdf"), b"hello".to_vec()).unwrap();
    assert!(pdf.is_base64);
    assert_eq!(pdf.content, "aGVsbG8=");
    let two = document_content(viewer_document("image", "x.png"), b"hi".to_vec()).unwrap();
    assert_eq!(two.content, "aGk=");
    let three = document_content(viewer_document("image", "x.png"), vec![0xfb, 0xff, 0x00]).unwrap();
    assert_eq!(three.content, "+/8A");
}

#[test]
fn markdown_that_is_not_utf8_is_an_indexing_error() {
    let err = document_content(viewer_document("md", "bad.md"), vec![0x66, 0x6f, 0xff]).unwrap_err();
    assert_eq!(err.code, ErrorCode::IndexingError);
    assert!(err.message.starts_with("document is not valid UTF-8: "));
}

#[test]
fn request_counts_default_when_unspecified() {
    let quiz = QuizRequest { workspace_id: 1, topic: "t".to_string(), document_id: None, question_count: None };
    assert_eq!(quiz.requested_questions(), 5);
    let quiz = QuizRequest { workspace_id: 1, topic: "t".to_string(), document_id: None, question_count: Some(3) };
    assert_eq!(quiz.requested_questions(), 3);
    let cards = FlashcardsRequest { workspace_id: 1, topic: "t".to_string(), document_id: None, card_count: None };
    assert_eq!(cards.requested_cards(), 10);
}
