//! Pairing of bookmark and comment markers across a document.
//!
//! Markers are added to paragraphs without any check. Before a document is
//! written, every marker must have exactly one partner of the same id
//! somewhere in the document, and occur once itself: a bookmark start with
//! a bookmark end, a comment start with a comment end. The first marker in
//! document order for which this fails is reported.

use vstd::prelude::*;
use crate::content::{ChildView, ParagraphView};

verus! {

/// The kind of a marker node.
#[derive(Clone, Copy, Debug, PartialEq, Eq, Structural)]
pub enum NodeKind {
    BookmarkStart,
    BookmarkEnd,
    CommentStart,
    CommentEnd,
}

/// A marker: one end of a bookmark or of a comment's range.
#[derive(Clone, Copy, Debug, PartialEq, Eq, Structural)]
pub struct Marker {
    pub kind: NodeKind,
    pub id: usize,
}

/// A marker that is not paired: its id and its kind.
#[derive(Clone, Copy, Debug, PartialEq, Eq, Structural)]
pub struct StructuralError {
    pub id: usize,
    pub kind: NodeKind,
}

/// The kind that pairs with `kind`.
pub open spec fn partner_of(kind: NodeKind) -> NodeKind {
    match kind {
        NodeKind::BookmarkStart => NodeKind::BookmarkEnd,
        NodeKind::BookmarkEnd => NodeKind::BookmarkStart,
        NodeKind::CommentStart => NodeKind::CommentEnd,
        NodeKind::CommentEnd => NodeKind::CommentStart,
    }
}

/// The marker that a child of a paragraph is, if it is one.
pub open spec fn marker_of(child: ChildView) -> Option<Marker> {
    match child {
        ChildView::BookmarkStart { id, name } => Some(
            Marker { kind: NodeKind::BookmarkStart, id },
        ),
        ChildView::BookmarkEnd { id } => Some(Marker { kind: NodeKind::BookmarkEnd, id }),
        ChildView::CommentStart(c) => Some(Marker { kind: NodeKind::CommentStart, id: c.id }),
        ChildView::CommentEnd { id } => Some(Marker { kind: NodeKind::CommentEnd, id }),
        _ => None,
    }
}

/// The markers among some children, in order.
pub open spec fn markers_of(children: Seq<ChildView>) -> Seq<Marker>
    decreases children.len(),
{
    if children.len() == 0 {
        Seq::empty()
    } else {
        let before = markers_of(children.drop_last());
        match marker_of(children.last()) {
            Some(m) => before.push(m),
            None => before,
        }
    }
}

/// The markers of a document, in document order.
pub open spec fn document_markers(paragraphs: Seq<ParagraphView>) -> Seq<Marker>
    decreases paragraphs.len(),
{
    if paragraphs.len() == 0 {
        Seq::empty()
    } else {
        document_markers(paragraphs.drop_last()) + markers_of(paragraphs.last().children)
    }
}

/// How often `m` occurs among `markers`.
pub open spec fn occurrences(markers: Seq<Marker>, m: Marker) -> nat
    decreases markers.len(),
{
    if markers.len() == 0 {
        0
    } else {
        occurrences(markers.drop_last(), m) + if markers.last() == m {
            1nat
        } else {
            0nat
        }
    }
}

/// Whether `m` occurs once among `markers`, and its partner once.
pub open spec fn is_paired(markers: Seq<Marker>, m: Marker) -> bool {
    &&& occurrences(markers, m) == 1
    &&& occurrences(markers, Marker { kind: partner_of(m.kind), id: m.id }) == 1
}

/// Whether every marker is paired.
pub open spec fn well_paired(markers: Seq<Marker>) -> bool {
    forall|k: int| 0 <= k < markers.len() ==> is_paired(markers, #[trigger] markers[k])
}

/// The position of the first marker from `from` on that is not paired.
pub open spec fn first_unpaired(markers: Seq<Marker>, from: int) -> Option<int>
    decreases markers.len() - from,
{
    if from < 0 || from >= markers.len() {
        None
    } else if !is_paired(markers, markers[from]) {
        Some(from)
    } else {
        first_unpaired(markers, from + 1)
    }
}

/// The first marker that is not paired, as an error.
pub open spec fn defect(markers: Seq<Marker>) -> Option<StructuralError> {
    match first_unpaired(markers, 0) {
        Some(k) => Some(StructuralError { id: markers[k].id, kind: markers[k].kind }),
        None => None,
    }
}

/// `first_unpaired` gives a position that is not paired and before which,
/// from `from` on, all are; it gives none exactly when all are.
pub proof fn lemma_first_unpaired(markers: Seq<Marker>, from: int)
    requires
        0 <= from,
    ensures
        match first_unpaired(markers, from) {
            Some(k) => {
                &&& from <= k < markers.len()
                &&& !is_paired(markers, markers[k])
                &&& forall|j: int| from <= j < k ==> is_paired(markers, #[trigger] markers[j])
            },
            None => forall|j: int|
                from <= j < markers.len() ==> is_paired(markers, #[trigger] markers[j]),
        },
    decreases markers.len() - from,
{
    if from < markers.len() && is_paired(markers, markers[from]) {
        lemma_first_unpaired(markers, from + 1);
    }
}

/// The kind that pairs with `kind`.
pub fn partner(kind: NodeKind) -> (out: NodeKind)
    ensures
        out == partner_of(kind),
{
    match kind {
        NodeKind::BookmarkStart => NodeKind::BookmarkEnd,
        NodeKind::BookmarkEnd => NodeKind::BookmarkStart,
        NodeKind::CommentStart => NodeKind::CommentEnd,
        NodeKind::CommentEnd => NodeKind::CommentStart,
    }
}

/// Whether `m` occurs exactly once among `markers`.
fn occurs_once(markers: &Vec<Marker>, m: Marker) -> (out: bool)
    ensures
        out == (occurrences(markers@, m) == 1),
{
    let mut seen: bool = false;
    let mut i: usize = 0;
    assert(markers@.take(0) =~= Seq::empty());
    while i < markers.len()
        invariant
            i <= markers.len(),
            occurrences(markers@.take(i as int), m) == if seen {
                1nat
            } else {
                0nat
            },
        decreases markers.len() - i,
    {
        let current = markers[i];
        assert(markers@.take(i + 1).drop_last() =~= markers@.take(i as int));
        if current.kind == m.kind && current.id == m.id {
            if seen {
                proof {
                    lemma_occurrences_grow(markers@.take(i + 1), markers@, m);
                    assert(markers@.take(markers.len() as int) =~= markers@);
                }
                return false;
            }
            seen = true;
        }
        i += 1;
    }
    assert(markers@.take(i as int) =~= markers@);
    seen
}

/// A marker occurs in a sequence at least as often as in any of its
/// beginnings.
pub proof fn lemma_occurrences_grow(prefix: Seq<Marker>, markers: Seq<Marker>, m: Marker)
    requires
        prefix.len() <= markers.len(),
        prefix =~= markers.take(prefix.len() as int),
    ensures
        occurrences(prefix, m) <= occurrences(markers, m),
    decreases markers.len(),
{
    if prefix.len() < markers.len() {
        assert(markers.drop_last().take(prefix.len() as int) =~= prefix);
        lemma_occurrences_grow(prefix, markers.drop_last(), m);
    } else {
        assert(prefix =~= markers);
    }
}

/// Looks for the first marker that is not paired.
pub fn find_defect(markers: &Vec<Marker>) -> (out: Option<StructuralError>)
    ensures
        out == defect(markers@),
        out is None <==> well_paired(markers@),
{
    let mut k: usize = 0;
    while k < markers.len()
        invariant
            k <= markers.len(),
            first_unpaired(markers@, 0) == first_unpaired(markers@, k as int),
            forall|j: int| 0 <= j < k ==> is_paired(markers@, #[trigger] markers@[j]),
        decreases markers.len() - k,
    {
        let m = markers[k];
        let other = Marker { kind: partner(m.kind), id: m.id };
        if !occurs_once(markers, m) || !occurs_once(markers, other) {
            return Some(StructuralError { id: m.id, kind: m.kind });
        }
        k += 1;
    }
    None
}

} // verus!
