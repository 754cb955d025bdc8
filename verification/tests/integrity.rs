use docx_paragraph::{
    create_paragraph, find_defect, partner, Comment, Document, Marker, NodeKind, Run,
    StructuralError,
};

fn marker(kind: NodeKind, id: usize) -> Marker {
    Marker { kind, id }
}

fn error(kind: NodeKind, id: usize) -> Option<StructuralError> {
    Some(StructuralError { id, kind })
}

#[test]
fn kinds_pair_up() {
    assert_eq!(partner(NodeKind::BookmarkStart), NodeKind::BookmarkEnd);
    assert_eq!(partner(NodeKind::BookmarkEnd), NodeKind::BookmarkStart);
    assert_eq!(partner(NodeKind::CommentStart), NodeKind::CommentEnd);
    assert_eq!(partner(NodeKind::CommentEnd), NodeKind::CommentStart);
}

#[test]
fn no_markers_no_defect() {
    assert_eq!(find_defect(&vec![]), None);
}

#[test]
fn a_pair_is_no_defect() {
    let markers = vec![marker(NodeKind::BookmarkStart, 1), marker(NodeKind::BookmarkEnd, 1)];
    assert_eq!(find_defect(&markers), None);
    let markers = vec![marker(NodeKind::CommentStart, 5), marker(NodeKind::CommentEnd, 5)];
    assert_eq!(find_defect(&markers), None);
}

#[test]
fn nested_and_crossing_pairs_are_no_defect() {
    let markers = vec![
        marker(NodeKind::BookmarkStart, 1),
        marker(NodeKind::CommentStart, 1),
        marker(NodeKind::BookmarkStart, 2),
        marker(NodeKind::BookmarkEnd, 1),
        marker(NodeKind::CommentEnd, 1),
        marker(NodeKind::BookmarkEnd, 2),
    ];
    assert_eq!(find_defect(&markers), None);
}

#[test]
fn an_end_before_its_start_still_pairs() {
    let markers = vec![marker(NodeKind::BookmarkEnd, 1), marker(NodeKind::BookmarkStart, 1)];
    assert_eq!(find_defect(&markers), None);
}

#[test]
fn each_lone_marker_is_a_defect() {
    for kind in [
        NodeKind::BookmarkStart,
        NodeKind::BookmarkEnd,
        NodeKind::CommentStart,
        NodeKind::CommentEnd,
    ] {
        assert_eq!(find_defect(&vec![marker(kind, 9)]), error(kind, 9));
    }
}

#[test]
fn a_bookmark_does_not_pair_with_a_comment() {
    let markers = vec![marker(NodeKind::BookmarkStart, 1), marker(NodeKind::CommentEnd, 1)];
    assert_eq!(find_defect(&markers), error(NodeKind::BookmarkStart, 1));
}

#[test]
fn ids_must_match() {
    let markers = vec![marker(NodeKind::BookmarkStart, 1), marker(NodeKind::BookmarkEnd, 2)];
    assert_eq!(find_defect(&markers), error(NodeKind::BookmarkStart, 1));
}

#[test]
fn a_repeated_start_is_a_defect() {
    let markers = vec![
        marker(NodeKind::BookmarkStart, 1),
        marker(NodeKind::BookmarkStart, 1),
        marker(NodeKind::BookmarkEnd, 1),
    ];
    assert_eq!(find_defect(&markers), error(NodeKind::BookmarkStart, 1));
}

#[test]
fn a_repeated_end_is_a_defect() {
    let markers = vec![
        marker(NodeKind::CommentStart, 3),
        marker(NodeKind::CommentEnd, 3),
        marker(NodeKind::CommentEnd, 3),
    ];
    assert_eq!(find_defect(&markers), error(NodeKind::CommentStart, 3));
}

#[test]
fn the_first_defect_in_order_is_reported() {
    let markers = vec![
        marker(NodeKind::BookmarkStart, 1),
        marker(NodeKind::BookmarkEnd, 1),
        marker(NodeKind::CommentEnd, 8),
        marker(NodeKind::BookmarkStart, 4),
    ];
    assert_eq!(find_defect(&markers), error(NodeKind::CommentEnd, 8));
}

#[test]
fn markers_come_in_document_order() {
    let doc = Document::new()
        .add_paragraph(
            create_paragraph()
                .add_run(Run::new().add_text("a"))
                .add_bookmark_start(1, "b")
                .add_comment_start(Comment::new(7)),
        )
        .add_paragraph(create_paragraph())
        .add_paragraph(
            create_paragraph()
                .add_comment_end(7)
                .add_run(Run::new().add_text("z"))
                .add_bookmark_end(1),
        );
    assert_eq!(
        doc.markers(),
        vec![
            marker(NodeKind::BookmarkStart, 1),
            marker(NodeKind::CommentStart, 7),
            marker(NodeKind::CommentEnd, 7),
            marker(NodeKind::BookmarkEnd, 1),
        ]
    );
    assert_eq!(doc.check(), Ok(()));
}

#[test]
fn a_document_without_markers_passes() {
    assert_eq!(Document::new().check(), Ok(()));
    assert_eq!(Document::new().markers(), vec![]);
    let doc = Document::new().add_paragraph(create_paragraph().add_run(Run::new()));
    assert_eq!(doc.check(), Ok(()));
}

#[test]
fn a_pair_may_span_paragraphs() {
    let doc = Document::new()
        .add_paragraph(create_paragraph().add_bookmark_start(2, "span"))
        .add_paragraph(create_paragraph().add_bookmark_end(2));
    assert_eq!(doc.check(), Ok(()));
}

#[test]
fn check_reports_the_unpaired_marker() {
    let doc = Document::new().add_paragraph(create_paragraph().add_bookmark_end(3));
    assert_eq!(doc.check(), Err(StructuralError { id: 3, kind: NodeKind::BookmarkEnd }));
    let doc = Document::new().add_paragraph(create_paragraph().add_comment_start(Comment::new(6)));
    assert_eq!(doc.check(), Err(StructuralError { id: 6, kind: NodeKind::CommentStart }));
    let doc = Document::new().add_paragraph(create_paragraph().add_comment_end(6));
    assert_eq!(doc.check(), Err(StructuralError { id: 6, kind: NodeKind::CommentEnd }));
}

#[test]
fn the_same_id_twice_in_one_document_is_reported() {
    let doc = Document::new()
        .add_paragraph(create_paragraph().add_bookmark_start(1, "a").add_bookmark_end(1))
        .add_paragraph(create_paragraph().add_bookmark_start(1, "b").add_bookmark_end(1));
    assert_eq!(doc.check(), Err(StructuralError { id: 1, kind: NodeKind::BookmarkStart }));
}
