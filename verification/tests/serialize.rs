use docx_paragraph::{
    create_paragraph, Comment, Document, NodeKind, Run, SerializeError, StructuralError,
};

fn find(haystack: &[u8], needle: &str) -> bool {
    let needle = needle.as_bytes();
    haystack.windows(needle.len()).any(|w| w == needle)
}

fn document_text(bytes: &[u8]) -> String {
    let docx = docx_rs::read_docx(bytes).expect("the package can be read back");
    let mut text = String::new();
    for child in docx.document.children.iter() {
        if let docx_rs::DocumentChild::Paragraph(p) = child {
            text.push_str(&p.raw_text());
        }
    }
    text
}

#[test]
fn hello_round_trip() {
    let doc = Document::new()
        .add_paragraph(create_paragraph().add_run(Run::new().add_text("Hello")));
    let bytes = doc.serialize().expect("a document without markers is written");
    assert_eq!(document_text(&bytes), "Hello");
}

#[test]
fn unmatched_bookmark_start_is_reported() {
    let doc = Document::new().add_paragraph(create_paragraph().add_bookmark_start(1, "b"));
    assert_eq!(
        doc.serialize(),
        Err(SerializeError::Structure(StructuralError { id: 1, kind: NodeKind::BookmarkStart }))
    );
}

#[test]
fn numbering_pair_is_written_together() {
    let doc = Document::new().add_paragraph(
        create_paragraph().numbering(3, 0).add_run(Run::new().add_text("item")),
    );
    let bytes = doc.serialize().expect("written");
    assert!(find(&bytes, "<w:numPr><w:numId w:val=\"3\" /><w:ilvl w:val=\"0\" /></w:numPr>"));
}

#[test]
fn same_document_same_bytes() {
    let doc = Document::new()
        .add_paragraph(
            create_paragraph()
                .add_bookmark_start(7, "here")
                .add_run(Run::new().add_text("Hello").bold())
                .add_bookmark_end(7)
                .add_comment_start(Comment::new(2).author("a").add_run(Run::new().add_text("note")))
                .add_comment_end(2),
        )
        .add_paragraph(create_paragraph().numbering(3, 0).keep_next(true));
    let first = doc.serialize().expect("written");
    let second = doc.serialize().expect("written");
    assert_eq!(first, second);
    let again = doc.clone().serialize().expect("written");
    assert_eq!(first, again);
}

#[test]
fn empty_document_is_written() {
    let bytes = Document::new().serialize().expect("written");
    assert!(find(&bytes, "word/document.xml"));
    assert!(find(&bytes, "[Content_Types].xml"));
    assert_eq!(document_text(&bytes), "");
}

#[test]
fn paragraphs_are_written_in_order() {
    let doc = Document::new()
        .add_paragraph(create_paragraph().add_run(Run::new().add_text("one")))
        .add_paragraph(create_paragraph().add_run(Run::new().add_text("two")))
        .add_paragraph(create_paragraph().add_run(Run::new().add_text("three")));
    assert_eq!(doc.children.len(), 3);
    let bytes = doc.serialize().expect("written");
    let docx = docx_rs::read_docx(&bytes).expect("read back");
    let mut texts = Vec::new();
    for child in docx.document.children.iter() {
        if let docx_rs::DocumentChild::Paragraph(p) = child {
            texts.push(p.raw_text());
        }
    }
    assert_eq!(texts, vec!["one".to_string(), "two".to_string(), "three".to_string()]);
}

#[test]
fn runs_are_written_in_order() {
    let doc = Document::new().add_paragraph(
        create_paragraph()
            .add_run(Run::new().add_text("Hel"))
            .add_run(Run::new().add_text("lo")),
    );
    let bytes = doc.serialize().expect("written");
    assert_eq!(document_text(&bytes), "Hello");
}

#[test]
fn special_characters_survive_the_round_trip() {
    let doc = Document::new()
        .add_paragraph(create_paragraph().add_run(Run::new().add_text("a < b & \"c\"")));
    let bytes = doc.serialize().expect("written");
    assert_eq!(document_text(&bytes), "a < b & \"c\"");
}

#[test]
fn a_paired_bookmark_is_written() {
    let doc = Document::new().add_paragraph(
        create_paragraph()
            .add_bookmark_start(1, "b")
            .add_run(Run::new().add_text("Hello"))
            .add_bookmark_end(1),
    );
    let bytes = doc.serialize().expect("written");
    assert!(find(&bytes, "<w:bookmarkStart w:id=\"1\" w:name=\"b\" />"));
    assert!(find(&bytes, "<w:bookmarkEnd w:id=\"1\" />"));
}

#[test]
fn each_unpaired_marker_is_an_error() {
    let doc = Document::new().add_paragraph(create_paragraph().add_bookmark_end(4));
    assert_eq!(
        doc.serialize(),
        Err(SerializeError::Structure(StructuralError { id: 4, kind: NodeKind::BookmarkEnd }))
    );
    let doc = Document::new().add_paragraph(create_paragraph().add_comment_start(Comment::new(5)));
    assert_eq!(
        doc.serialize(),
        Err(SerializeError::Structure(StructuralError { id: 5, kind: NodeKind::CommentStart }))
    );
    let doc = Document::new().add_paragraph(create_paragraph().add_comment_end(6));
    assert_eq!(
        doc.serialize(),
        Err(SerializeError::Structure(StructuralError { id: 6, kind: NodeKind::CommentEnd }))
    );
}

#[test]
fn comments_bring_their_own_part() {
    let doc = Document::new().add_paragraph(
        create_paragraph()
            .add_comment_start(
                Comment::new(1).author("ann").add_run(Run::new().add_text("remark")),
            )
            .add_run(Run::new().add_text("Hello"))
            .add_comment_end(1),
    );
    let bytes = doc.serialize().expect("written");
    assert!(find(&bytes, "word/comments.xml"));
    assert!(find(&bytes, "remark"));
    assert!(find(&bytes, "w:author=\"ann\""));
    assert_eq!(document_text(&bytes), "Hello");
}

#[test]
fn tracked_changes_are_written() {
    let doc = Document::new().add_paragraph(
        create_paragraph()
            .add_insert(docx_paragraph::Insert::new(Run::new().add_text("new")).author("bob"))
            .add_delete(docx_paragraph::Delete::new(Run::new().add_text("old")).author("bob")),
    );
    let bytes = doc.serialize().expect("written");
    assert!(find(&bytes, "<w:ins "));
    assert!(find(&bytes, "<w:del "));
    assert!(find(&bytes, "w:author=\"bob\""));
}

#[test]
fn formatting_reaches_the_package() {
    let doc = Document::new().add_paragraph(
        create_paragraph()
            .align(docx_paragraph::AlignmentType::Center)
            .style("Heading1")
            .keep_next(true)
            .add_run(Run::new().add_text("Title").bold()),
    );
    let bytes = doc.serialize().expect("written");
    assert!(find(&bytes, "<w:jc w:val=\"center\" />"));
    assert!(find(&bytes, "<w:pStyle w:val=\"Heading1\" />"));
    assert!(find(&bytes, "<w:keepNext />"));
    assert!(find(&bytes, "<w:b />"));
}

#[test]
fn packing_failure_is_its_own_error() {
    assert_eq!(docx_paragraph::finish(None), Err(SerializeError::Packaging));
    assert_eq!(docx_paragraph::finish(Some(vec![1, 2, 3])), Ok(vec![1, 2, 3]));
    assert_eq!(docx_paragraph::finish(Some(vec![])), Ok(vec![]));
}

#[test]
fn to_docx_holds_the_paragraphs() {
    let doc = Document::new()
        .add_paragraph(create_paragraph().add_run(Run::new().add_text("one")))
        .add_paragraph(create_paragraph().numbering(1, 0));
    let docx = doc.to_docx();
    assert_eq!(docx.document.children.len(), 2);
    assert!(docx.document_rels.has_numberings);
    assert_eq!(Document::new().to_docx().document.children.len(), 0);
}
