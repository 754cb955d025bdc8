//! Documents: paragraphs in order, checked and written as one package.

use vstd::prelude::*;
use crate::content::{written, ChildView, ParagraphView};
use crate::integrity::{
    defect, document_markers, find_defect, marker_of, markers_of, Marker, NodeKind,
    StructuralError,
};
use crate::native::{
    comment_of_runs, docx_add_paragraph, docx_new, docx_pack, docx_view, free_of_changes, is_change,
    packed,
};
use crate::paragraph::{Paragraph, ParagraphChild};

verus! {

/// Why a document could not be written.
#[derive(Clone, Copy, Debug, PartialEq, Eq)]
pub enum SerializeError {
    /// A bookmark or comment marker is not paired.
    Structure(StructuralError),
    /// `docx-rs` could not put the package together.
    Packaging,
}

/// A document: its paragraphs in the order in which they were added.
#[derive(Clone, Debug, PartialEq, Eq)]
pub struct Document {
    pub children: Vec<Paragraph>,
}

impl View for Document {
    type V = Seq<ParagraphView>;

    open spec fn view(&self) -> Seq<ParagraphView> {
        self.children@.map_values(|p: Paragraph| p@)
    }
}

/// What writing a document gives once its markers were found paired: the
/// bytes that were packed, or the packaging error.
pub open spec fn finished(bytes: Option<Seq<u8>>) -> Result<Seq<u8>, SerializeError> {
    match bytes {
        Some(b) => Ok(b),
        None => Err(SerializeError::Packaging),
    }
}

/// What writing a document without tracked changes gives: the first
/// unpaired marker as an error if there is one, and else what `docx-rs`
/// packs for the paragraphs as it keeps them.
pub open spec fn serialized(paragraphs: Seq<ParagraphView>) -> Result<Seq<u8>, SerializeError> {
    match defect(document_markers(paragraphs)) {
        Some(e) => Err(SerializeError::Structure(e)),
        None => finished(packed(written(paragraphs))),
    }
}

/// Paragraphs without tracked changes are without them as `docx-rs` keeps
/// them too.
pub proof fn lemma_written_free_of_changes(paragraphs: Seq<ParagraphView>)
    requires
        free_of_changes(paragraphs),
    ensures
        free_of_changes(written(paragraphs)),
{
    let w = written(paragraphs);
    assert forall|i: int, j: int| 0 <= i < w.len() && 0 <= j < w[i].children.len() implies {
        let child = #[trigger] w[i].children[j];
        &&& !is_change(child)
        &&& child matches ChildView::CommentStart(c) ==> comment_of_runs(c)
    } by {
        let before = paragraphs[i].children[j];
        assert(w[i].children[j] == before.written());
        assert(!is_change(before));
        if let ChildView::CommentStart(c) = before {
            assert(comment_of_runs(c));
            let cw = c.written();
            assert forall|k: int, l: int|
                0 <= k < cw.paragraphs.len() && 0 <= l < cw.paragraphs[k].children.len() implies (
            #[trigger] cw.paragraphs[k].children[l]) is Run by {
                assert(cw.paragraphs[k] == c.paragraphs[k].written());
                assert(c.paragraphs[k].children[l] is Run);
                assert(cw.paragraphs[k].children[l] == c.paragraphs[k].children[l].written());
            }
        }
    }
}

/// The bytes of a result as a sequence.
pub open spec fn result_view(r: Result<Vec<u8>, SerializeError>) -> Result<
    Seq<u8>,
    SerializeError,
> {
    match r {
        Ok(bytes) => Ok(bytes@),
        Err(e) => Err(e),
    }
}

/// Turns what came back from packing into the result of writing the
/// document.
pub fn finish(bytes: Option<Vec<u8>>) -> (out: Result<Vec<u8>, SerializeError>)
    ensures
        result_view(out) == finished(
            match bytes {
                Some(b) => Some(b@),
                None => None,
            },
        ),
{
    match bytes {
        Some(b) => Ok(b),
        None => Err(SerializeError::Packaging),
    }
}

/// The markers of the first `n` paragraphs are those of the paragraphs
/// before the last of them, followed by those of that one.
proof fn lemma_markers_step(paragraphs: Seq<ParagraphView>, n: int)
    requires
        0 <= n < paragraphs.len(),
    ensures
        document_markers(paragraphs.take(n + 1)) == document_markers(paragraphs.take(n))
            + markers_of(paragraphs[n].children),
{
    assert(paragraphs.take(n + 1).drop_last() =~= paragraphs.take(n));
}

/// The markers of the first `n` children are those of the children before
/// the last of them, followed by that one's if it is a marker.
proof fn lemma_children_step(children: Seq<ChildView>, n: int)
    requires
        0 <= n < children.len(),
    ensures
        markers_of(children.take(n + 1)) == match marker_of(children[n]) {
            Some(m) => markers_of(children.take(n)).push(m),
            None => markers_of(children.take(n)),
        },
{
    assert(children.take(n + 1).drop_last() =~= children.take(n));
}

impl Document {
    /// A document without paragraphs.
    pub fn new() -> (out: Document)
        ensures
            out@ == Seq::<ParagraphView>::empty(),
    {
        let out = Document { children: Vec::new() };
        assert(out@ =~= Seq::empty());
        out
    }

    /// Appends a paragraph after those that the document holds. Nothing
    /// about the paragraph is checked here.
    pub fn add_paragraph(self, paragraph: Paragraph) -> (out: Document)
        ensures
            out@ == self@.push(paragraph@),
    {
        let mut children = self.children;
        children.push(paragraph);
        let out = Document { children };
        assert(out@ =~= self@.push(paragraph@));
        out
    }

    /// The bookmark and comment markers of the document, in document
    /// order.
    pub fn markers(&self) -> (out: Vec<Marker>)
        ensures
            out@ == document_markers(self@),
    {
        let mut out: Vec<Marker> = Vec::new();
        let mut i: usize = 0;
        assert(self@.take(0) =~= Seq::empty());
        while i < self.children.len()
            invariant
                i <= self.children.len(),
                out@ == document_markers(self@.take(i as int)),
            decreases self.children.len() - i,
        {
            let paragraph = &self.children[i];
            let ghost before = out@;
            let mut j: usize = 0;
            assert(paragraph@.children.take(0) =~= Seq::empty());
            while j < paragraph.children.len()
                invariant
                    j <= paragraph.children.len(),
                    out@ == before + markers_of(paragraph@.children.take(j as int)),
                decreases paragraph.children.len() - j,
            {
                proof {
                    lemma_children_step(paragraph@.children, j as int);
                }
                let ghost so_far = markers_of(paragraph@.children.take(j as int));
                match &paragraph.children[j] {
                    ParagraphChild::BookmarkStart { id, name } => {
                        out.push(Marker { kind: NodeKind::BookmarkStart, id: *id });
                    },
                    ParagraphChild::BookmarkEnd { id } => {
                        out.push(Marker { kind: NodeKind::BookmarkEnd, id: *id });
                    },
                    ParagraphChild::CommentStart(c) => {
                        out.push(Marker { kind: NodeKind::CommentStart, id: c.id() });
                    },
                    ParagraphChild::CommentEnd { id } => {
                        out.push(Marker { kind: NodeKind::CommentEnd, id: *id });
                    },
                    _ => {},
                }
                assert(out@ =~= before + markers_of(paragraph@.children.take(j + 1)));
                j += 1;
            }
            proof {
                assert(paragraph@.children.take(j as int) =~= paragraph@.children);
                lemma_markers_step(self@, i as int);
            }
            i += 1;
        }
        assert(self@.take(i as int) =~= self@);
        out
    }

    /// Checks that every bookmark and comment marker of the document is
    /// paired, and reports the first that is not.
    pub fn check(&self) -> (out: Result<(), StructuralError>)
        ensures
            match out {
                Ok(()) => defect(document_markers(self@)) is None,
                Err(e) => defect(document_markers(self@)) == Some(e),
            },
    {
        let markers = self.markers();
        match find_defect(&markers) {
            Some(e) => Err(e),
            None => Ok(()),
        }
    }

    /// The same document as a value of `docx-rs`.
    pub fn to_docx(&self) -> (out: docx_rs::Docx)
        ensures
            docx_view(out) == Some(written(self@)),
    {
        let mut d = docx_new();
        let mut i: usize = 0;
        let ghost target = written(self@);
        assert(target.take(0) =~= Seq::empty());
        while i < self.children.len()
            invariant
                i <= self.children.len(),
                target == written(self@),
                docx_view(d) == Some(target.take(i as int)),
            decreases self.children.len() - i,
        {
            d = docx_add_paragraph(d, self.children[i].to_docx());
            assert(target.take(i + 1) =~= target.take(i as int).push(
                self.children[i as int]@.written(),
            ));
            i += 1;
        }
        assert(target.take(i as int) =~= target);
        d
    }

    /// Writes the document as a package. A document whose markers are not
    /// all paired is not written: the first unpaired marker comes back as
    /// the error. Otherwise `docx-rs` packs the paragraphs; for a document
    /// without tracked changes the bytes depend on the paragraphs alone.
    pub fn serialize(&self) -> (out: Result<Vec<u8>, SerializeError>)
        ensures
            match defect(document_markers(self@)) {
                Some(e) => out == Err::<Vec<u8>, SerializeError>(SerializeError::Structure(e)),
                None => out is Ok || out == Err::<Vec<u8>, SerializeError>(
                    SerializeError::Packaging,
                ),
            },
            free_of_changes(self@) ==> result_view(out) == serialized(self@),
    {
        proof {
            if free_of_changes(self@) {
                lemma_written_free_of_changes(self@);
            }
        }
        match self.check() {
            Err(e) => Err(SerializeError::Structure(e)),
            Ok(()) => finish(docx_pack(self.to_docx())),
        }
    }
}

} // verus!
