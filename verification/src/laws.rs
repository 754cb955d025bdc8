//! What holds of every paragraph and every document.

use vstd::prelude::*;
use crate::content::{written, ChildView, ParagraphView};
use crate::document::{result_view, serialized, Document, SerializeError};
use crate::format::Numbering;
use crate::integrity::{
    defect, document_markers, first_unpaired, is_paired, lemma_first_unpaired, marker_of,
    markers_of, occurrences, well_paired, Marker, NodeKind, StructuralError,
};
use crate::native::free_of_changes;
use crate::run::RunView;

verus! {

/// Two runs added one after the other end up as the last two children, in
/// the order in which they were added, behind the children that were there
/// before. On an empty paragraph they are the only children.
pub proof fn runs_keep_their_order(p: ParagraphView, r1: RunView, r2: RunView)
    ensures
        p.with_child(ChildView::Run(r1)).with_child(ChildView::Run(r2)).children == p.children
            + seq![ChildView::Run(r1), ChildView::Run(r2)],
        ParagraphView::empty().with_child(ChildView::Run(r1)).with_child(
            ChildView::Run(r2),
        ).children == seq![ChildView::Run(r1), ChildView::Run(r2)],
        p.with_child(ChildView::Run(r1)).with_child(ChildView::Run(r2)).property == p.property,
{
    assert(p.with_child(ChildView::Run(r1)).with_child(ChildView::Run(r2)).children =~= p.children
        + seq![ChildView::Run(r1), ChildView::Run(r2)]);
    assert(ParagraphView::empty().with_child(ChildView::Run(r1)).with_child(
        ChildView::Run(r2),
    ).children =~= seq![ChildView::Run(r1), ChildView::Run(r2)]);
}

/// Adding a child of any kind keeps the children that were there, in their
/// order, and puts the new one last.
pub proof fn children_keep_their_order(p: ParagraphView, child: ChildView)
    ensures
        p.with_child(child).children.len() == p.children.len() + 1,
        p.with_child(child).children.last() == child,
        forall|i: int|
            0 <= i < p.children.len() ==> p.with_child(child).children[i] == p.children[i],
{
}

/// Switching bold on twice leaves a paragraph as switching it on once
/// does, and so for italic.
pub proof fn bold_twice_is_bold_once(p: ParagraphView)
    ensures
        p.with_bold().with_bold() == p.with_bold(),
        p.with_italic().with_italic() == p.with_italic(),
{
}

/// Setting a flag twice to the same value leaves a paragraph as setting it
/// once does.
pub proof fn flag_twice_is_flag_once(p: ParagraphView, v: bool)
    ensures
        p.with_keep_next(v).with_keep_next(v) == p.with_keep_next(v),
        p.with_keep_lines(v).with_keep_lines(v) == p.with_keep_lines(v),
        p.with_page_break_before(v).with_page_break_before(v) == p.with_page_break_before(v),
        p.with_window_control(v).with_window_control(v) == p.with_window_control(v),
{
}

/// A numbering reference is kept whole: after it is set, the paragraph
/// holds the definition and the level that were given, whatever it held
/// before, and nothing else of the paragraph has changed.
pub proof fn numbering_is_kept_whole(p: ParagraphView, numbering: Numbering)
    ensures
        p.with_numbering(numbering).property.numbering == Some(numbering),
        p.with_numbering(numbering).children == p.children,
        p.with_numbering(numbering).with_numbering(numbering) == p.with_numbering(numbering),
{
}

/// A marker that is not paired keeps the document from being written: an
/// error is reported, and it names this marker unless an earlier one is
/// unpaired too.
pub proof fn unpaired_marker_is_reported(paragraphs: Seq<ParagraphView>, k: int)
    requires
        0 <= k < document_markers(paragraphs).len(),
        !is_paired(document_markers(paragraphs), document_markers(paragraphs)[k]),
    ensures
        serialized(paragraphs) is Err,
        defect(document_markers(paragraphs)) is Some,
        (forall|j: int|
            0 <= j < k ==> is_paired(
                document_markers(paragraphs),
                #[trigger] document_markers(paragraphs)[j],
            )) ==> serialized(paragraphs) == Err::<Seq<u8>, SerializeError>(
            SerializeError::Structure(
                StructuralError {
                    id: document_markers(paragraphs)[k].id,
                    kind: document_markers(paragraphs)[k].kind,
                },
            ),
        ),
{
    let markers = document_markers(paragraphs);
    lemma_first_unpaired(markers, 0);
    assert(!well_paired(markers));
}

/// A bookmark start whose id no bookmark end carries is not paired.
pub proof fn start_without_end_is_unpaired(markers: Seq<Marker>, k: int)
    requires
        0 <= k < markers.len(),
        markers[k].kind == NodeKind::BookmarkStart,
        occurrences(markers, Marker { kind: NodeKind::BookmarkEnd, id: markers[k].id }) == 0,
    ensures
        !is_paired(markers, markers[k]),
        first_unpaired(markers, 0) is Some,
{
    lemma_first_unpaired(markers, 0);
}

/// A document that holds nothing but the start of one bookmark is refused,
/// and the error names that bookmark's id.
pub proof fn lone_bookmark_start_is_refused(id: usize, name: Seq<char>)
    ensures
        serialized(
            seq![ParagraphView::empty().with_child(ChildView::BookmarkStart { id, name })],
        ) == Err::<Seq<u8>, SerializeError>(
            SerializeError::Structure(StructuralError { id, kind: NodeKind::BookmarkStart }),
        ),
{
    let child = ChildView::BookmarkStart { id, name };
    let paragraph = ParagraphView::empty().with_child(child);
    let paragraphs = seq![paragraph];
    let start = Marker { kind: NodeKind::BookmarkStart, id };
    let markers = seq![start];
    reveal_with_fuel(markers_of, 2);
    reveal_with_fuel(document_markers, 2);
    reveal_with_fuel(occurrences, 2);
    reveal_with_fuel(first_unpaired, 2);
    assert(paragraph.children.drop_last() =~= Seq::empty());
    assert(markers_of(paragraph.children) =~= markers);
    assert(paragraphs.drop_last() =~= Seq::empty());
    assert(document_markers(paragraphs) =~= markers);
    assert(markers.drop_last() =~= Seq::empty());
    assert(occurrences(markers, Marker { kind: NodeKind::BookmarkEnd, id }) == 0);
}

/// What `docx-rs` drops from texts and values moves no marker: the
/// children as it keeps them have the markers of the children as given.
pub proof fn written_children_keep_markers(children: Seq<ChildView>, kept: Seq<ChildView>)
    requires
        kept.len() == children.len(),
        forall|i: int| 0 <= i < children.len() ==> kept[i] == (#[trigger] children[i]).written(),
    ensures
        markers_of(kept) == markers_of(children),
    decreases children.len(),
{
    if children.len() > 0 {
        written_children_keep_markers(children.drop_last(), kept.drop_last());
        assert(marker_of(kept.last()) == marker_of(children.last()));
    }
}

/// The markers of a document as `docx-rs` keeps it are those of the
/// document as given: what is checked is what is written.
pub proof fn written_keeps_markers(paragraphs: Seq<ParagraphView>)
    ensures
        document_markers(written(paragraphs)) == document_markers(paragraphs),
    decreases paragraphs.len(),
{
    if paragraphs.len() > 0 {
        written_keeps_markers(paragraphs.drop_last());
        assert(written(paragraphs).drop_last() =~= written(paragraphs.drop_last()));
        written_children_keep_markers(
            paragraphs.last().children,
            written(paragraphs).last().children,
        );
    }
}

/// A document whose markers are all paired is not refused for its
/// structure.
pub proof fn paired_document_is_packed(paragraphs: Seq<ParagraphView>)
    requires
        well_paired(document_markers(paragraphs)),
    ensures
        defect(document_markers(paragraphs)) is None,
        serialized(paragraphs) is Ok || serialized(paragraphs) == Err::<Seq<u8>, SerializeError>(
            SerializeError::Packaging,
        ),
{
    lemma_first_unpaired(document_markers(paragraphs), 0);
}

/// Writing a document without tracked changes twice gives the same bytes,
/// or the same error, both times; and so for two documents that hold the
/// same paragraphs. What comes back depends on the paragraphs alone.
pub proof fn same_document_same_bytes(
    a: Document,
    b: Document,
    first: Result<Vec<u8>, SerializeError>,
    second: Result<Vec<u8>, SerializeError>,
)
    requires
        a@ == b@,
        free_of_changes(a@),
        call_ensures(Document::serialize, (&a,), first),
        call_ensures(Document::serialize, (&b,), second),
    ensures
        result_view(first) == result_view(second),
{
}

} // verus!
