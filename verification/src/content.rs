//! Paragraphs and comments as mathematical values. Contracts across the
//! library are stated over these.
//!
//! Each of them has a `written` form: the same content as `docx-rs` keeps
//! it, which drops line feeds and carriage returns from texts and carriage
//! returns from the values that it escapes, and holds the space between
//! lines as a signed value.

use vstd::prelude::*;
use crate::format::{AlignmentType, Indent, LineSpacing, Numbering};
use crate::revision::ChangeView;
use crate::run::{opt_attr_written, RunPropertyView, RunView};

verus! {

/// A comment: its id, author and date, and the paragraphs of its text.
pub struct CommentView {
    pub id: usize,
    pub author: Seq<char>,
    pub date: Seq<char>,
    pub paragraphs: Seq<ParagraphView>,
}

/// A child of a paragraph.
pub enum ChildView {
    Run(RunView),
    Insert(ChangeView),
    Delete(ChangeView),
    BookmarkStart { id: usize, name: Seq<char> },
    BookmarkEnd { id: usize },
    CommentStart(CommentView),
    CommentEnd { id: usize },
}

/// The formatting of a paragraph. What is `None` was never set.
pub struct PropertyView {
    pub run_property: RunPropertyView,
    pub style: Option<Seq<char>>,
    pub numbering: Option<Numbering>,
    pub alignment: Option<AlignmentType>,
    pub indent: Option<Indent>,
    pub line_spacing: Option<LineSpacing>,
    pub keep_next: Option<bool>,
    pub keep_lines: Option<bool>,
    pub page_break_before: Option<bool>,
    pub window_control: Option<bool>,
}

/// A paragraph: its children in order, and its formatting.
pub struct ParagraphView {
    pub children: Seq<ChildView>,
    pub property: PropertyView,
}

impl CommentView {
    /// The comment `id` without text, by the author and of the date that
    /// stand in for missing ones.
    pub open spec fn unnamed(id: usize) -> CommentView {
        CommentView {
            id,
            author: "unnamed"@,
            date: "1970-01-01T00:00:00Z"@,
            paragraphs: Seq::empty(),
        }
    }

    pub open spec fn with_author(self, author: Seq<char>) -> CommentView {
        CommentView { author, ..self }
    }

    pub open spec fn with_date(self, date: Seq<char>) -> CommentView {
        CommentView { date, ..self }
    }

    pub open spec fn with_paragraph(self, paragraph: ParagraphView) -> CommentView {
        CommentView { paragraphs: self.paragraphs.push(paragraph), ..self }
    }

    /// The comment as `docx-rs` keeps it.
    pub open spec fn written(self) -> CommentView
        decreases self,
    {
        CommentView {
            paragraphs: Seq::new(
                self.paragraphs.len(),
                |i: int|
                    if 0 <= i < self.paragraphs.len() {
                        self.paragraphs[i].written()
                    } else {
                        ParagraphView::empty()
                    },
            ),
            ..self
        }
    }
}

impl ChildView {
    /// The child as `docx-rs` keeps it.
    pub open spec fn written(self) -> ChildView
        decreases self,
    {
        match self {
            ChildView::Run(r) => ChildView::Run(r.written()),
            ChildView::Insert(c) => ChildView::Insert(c.written()),
            ChildView::Delete(c) => ChildView::Delete(c.written()),
            ChildView::CommentStart(c) => ChildView::CommentStart(c.written()),
            _ => self,
        }
    }
}

impl PropertyView {
    pub open spec fn empty() -> PropertyView {
        PropertyView {
            run_property: RunPropertyView::empty(),
            style: None,
            numbering: None,
            alignment: None,
            indent: None,
            line_spacing: None,
            keep_next: None,
            keep_lines: None,
            page_break_before: None,
            window_control: None,
        }
    }

    /// The formatting as `docx-rs` keeps it.
    pub open spec fn written(self) -> PropertyView {
        PropertyView {
            run_property: self.run_property.written(),
            style: opt_attr_written(self.style),
            line_spacing: match self.line_spacing {
                Some(spacing) => Some(spacing.written()),
                None => None,
            },
            ..self
        }
    }
}

impl ParagraphView {
    pub open spec fn empty() -> ParagraphView {
        ParagraphView { children: Seq::empty(), property: PropertyView::empty() }
    }

    /// The paragraph without formatting whose children are the given runs.
    pub open spec fn of_runs(runs: Seq<RunView>) -> ParagraphView {
        ParagraphView {
            children: runs.map_values(|r: RunView| ChildView::Run(r)),
            property: PropertyView::empty(),
        }
    }

    /// The same paragraph with one more child at the end.
    pub open spec fn with_child(self, child: ChildView) -> ParagraphView {
        ParagraphView { children: self.children.push(child), ..self }
    }

    pub open spec fn with_alignment(self, alignment: AlignmentType) -> ParagraphView {
        ParagraphView {
            property: PropertyView { alignment: Some(alignment), ..self.property },
            ..self
        }
    }

    pub open spec fn with_style(self, style: Seq<char>) -> ParagraphView {
        ParagraphView { property: PropertyView { style: Some(style), ..self.property }, ..self }
    }

    pub open spec fn with_indent(self, indent: Indent) -> ParagraphView {
        ParagraphView { property: PropertyView { indent: Some(indent), ..self.property }, ..self }
    }

    pub open spec fn with_numbering(self, numbering: Numbering) -> ParagraphView {
        ParagraphView {
            property: PropertyView { numbering: Some(numbering), ..self.property },
            ..self
        }
    }

    pub open spec fn with_line_spacing(self, spacing: LineSpacing) -> ParagraphView {
        ParagraphView {
            property: PropertyView { line_spacing: Some(spacing), ..self.property },
            ..self
        }
    }

    pub open spec fn with_run_property(self, run_property: RunPropertyView) -> ParagraphView {
        ParagraphView { property: PropertyView { run_property, ..self.property }, ..self }
    }

    pub open spec fn with_keep_next(self, v: bool) -> ParagraphView {
        ParagraphView { property: PropertyView { keep_next: Some(v), ..self.property }, ..self }
    }

    pub open spec fn with_keep_lines(self, v: bool) -> ParagraphView {
        ParagraphView { property: PropertyView { keep_lines: Some(v), ..self.property }, ..self }
    }

    pub open spec fn with_page_break_before(self, v: bool) -> ParagraphView {
        ParagraphView {
            property: PropertyView { page_break_before: Some(v), ..self.property },
            ..self
        }
    }

    pub open spec fn with_window_control(self, v: bool) -> ParagraphView {
        ParagraphView {
            property: PropertyView { window_control: Some(v), ..self.property },
            ..self
        }
    }

    pub open spec fn with_bold(self) -> ParagraphView {
        self.with_run_property(self.property.run_property.with_bold())
    }

    pub open spec fn with_italic(self) -> ParagraphView {
        self.with_run_property(self.property.run_property.with_italic())
    }

    pub open spec fn with_size(self, size: usize) -> ParagraphView {
        self.with_run_property(self.property.run_property.with_size(size))
    }

    pub open spec fn with_fonts(self, fonts: crate::run::FontsView) -> ParagraphView {
        self.with_run_property(self.property.run_property.with_fonts(fonts))
    }

    /// The paragraph as `docx-rs` keeps it.
    pub open spec fn written(self) -> ParagraphView
        decreases self,
    {
        ParagraphView {
            children: Seq::new(
                self.children.len(),
                |i: int|
                    if 0 <= i < self.children.len() {
                        self.children[i].written()
                    } else {
                        ChildView::CommentEnd { id: 0 }
                    },
            ),
            property: self.property.written(),
        }
    }
}

/// Some paragraphs as `docx-rs` keeps them.
pub open spec fn written(paragraphs: Seq<ParagraphView>) -> Seq<ParagraphView> {
    paragraphs.map_values(|p: ParagraphView| p.written())
}

/// The written form of a paragraph of runs is the paragraph of the written
/// runs.
pub proof fn lemma_written_of_runs(runs: Seq<RunView>)
    ensures
        ParagraphView::of_runs(runs).written() == ParagraphView::of_runs(
            runs.map_values(|r: RunView| r.written()),
        ),
{
    let left = ParagraphView::of_runs(runs).written();
    let right = ParagraphView::of_runs(runs.map_values(|r: RunView| r.written()));
    assert(left.children =~= right.children);
}

} // verus!
