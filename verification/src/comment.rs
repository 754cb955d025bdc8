//! Comments: a note with an id, an author and a date, attached to a range
//! of a paragraph.

use vstd::prelude::*;
use crate::content::{lemma_written_of_runs, ChildView, CommentView, ParagraphView};
use crate::native::{
    comment_add_paragraph, comment_author, comment_date, comment_new, comment_view,
    paragraph_add_run, paragraph_new, paragraph_view,
};
use crate::revision::run_views;
use crate::run::{Run, RunView};

verus! {

/// A comment. Its text is one paragraph, made of the runs in order.
#[derive(Clone, Debug, PartialEq, Eq)]
pub struct Comment {
    pub id: usize,
    pub author: String,
    pub date: String,
    pub runs: Vec<Run>,
}

impl View for Comment {
    type V = CommentView;

    open spec fn view(&self) -> CommentView {
        CommentView {
            id: self.id,
            author: self.author@,
            date: self.date@,
            paragraphs: seq![ParagraphView::of_runs(run_views(self.runs@))],
        }
    }
}

impl Comment {
    /// The comment `id` with an empty text, by author `unnamed`, dated
    /// `1970-01-01T00:00:00Z`.
    pub fn new(id: usize) -> (out: Comment)
        ensures
            out@ == CommentView::unnamed(id).with_paragraph(ParagraphView::empty()),
    {
        let out = Comment {
            id,
            author: "unnamed".to_owned(),
            date: "1970-01-01T00:00:00Z".to_owned(),
            runs: Vec::new(),
        };
        proof {
            assert(ParagraphView::of_runs(run_views(out.runs@)).children =~= Seq::empty());
            assert(out@.paragraphs =~= seq![ParagraphView::empty()]);
        }
        out
    }

    pub fn author(self, author: &str) -> (out: Comment)
        ensures
            out@ == self@.with_author(author@),
    {
        Comment { id: self.id, author: author.to_owned(), date: self.date, runs: self.runs }
    }

    pub fn date(self, date: &str) -> (out: Comment)
        ensures
            out@ == self@.with_date(date@),
    {
        Comment { id: self.id, author: self.author, date: date.to_owned(), runs: self.runs }
    }

    /// Appends a run to the comment's text.
    pub fn add_run(self, run: Run) -> (out: Comment)
        ensures
            out@ == (CommentView {
                paragraphs: seq![self@.paragraphs[0].with_child(ChildView::Run(run@))],
                ..self@
            }),
    {
        let mut runs = self.runs;
        runs.push(run);
        let out = Comment { id: self.id, author: self.author, date: self.date, runs };
        proof {
            assert(out@.paragraphs[0].children =~= self@.paragraphs[0].children.push(
                ChildView::Run(run@),
            ));
            assert(out@.paragraphs =~= seq![self@.paragraphs[0].with_child(ChildView::Run(run@))]);
        }
        out
    }

    /// The id that the two ends of the comment's range refer to.
    pub fn id(&self) -> (out: usize)
        ensures
            out == self@.id,
    {
        self.id
    }

    /// The same comment as a value of `docx-rs`.
    pub fn to_docx(&self) -> (out: crate::native::DocxComment)
        ensures
            comment_view(out) == Some(self@.written()),
    {
        let mut p = paragraph_new();
        let mut i: usize = 0;
        let ghost runs = run_views(self.runs@).map_values(|r: RunView| r.written());
        assert(ParagraphView::of_runs(runs.take(0)).children =~= Seq::empty());
        while i < self.runs.len()
            invariant
                i <= self.runs.len(),
                runs == run_views(self.runs@).map_values(|r: RunView| r.written()),
                paragraph_view(p) == Some(ParagraphView::of_runs(runs.take(i as int))),
            decreases self.runs.len() - i,
        {
            p = paragraph_add_run(p, self.runs[i].to_docx());
            assert(ParagraphView::of_runs(runs.take(i + 1)).children =~= ParagraphView::of_runs(
                runs.take(i as int),
            ).children.push(ChildView::Run(self.runs[i as int]@.written())));
            i += 1;
        }
        assert(runs.take(i as int) =~= runs);
        let mut c = comment_new(self.id);
        c = comment_author(c, self.author.as_str());
        c = comment_date(c, self.date.as_str());
        c = comment_add_paragraph(c, p);
        proof {
            lemma_written_of_runs(run_views(self.runs@));
            assert(comment_view(c).unwrap().paragraphs =~= self@.written().paragraphs);
        }
        c
    }
}

} // verus!
